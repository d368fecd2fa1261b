//! Octave summation (fractal Brownian motion).
//!
//! An `Octave` pairs one noise source with a fixed amplitude; an
//! `OctaveNoise` owns an ordered list of octaves and evaluates to the
//! amplitude-weighted sum. The geometric fractal builder constructs octave
//! sequences whose frequencies scale geometrically and whose amplitudes
//! follow the inverse powers of the persistence, normalized so the
//! amplitudes sum to exactly `ONE`.

use vstd::prelude::*;

verus! {

use crate::error::NoiseError;
use crate::fixed::{ONE, fxmul, fxdiv, fits_i64, fx_mul};
use crate::noise::Noise;
use crate::point::PointUtil;

/// One noise source weighted by a fixed amplitude.
#[derive(Clone, Debug)]
pub struct Octave<N> {
    noise: N,
    amplitude: i64,
}

/// An ordered sequence of octaves, evaluated as the amplitude-weighted sum.
#[derive(Clone, Debug)]
pub struct OctaveNoise<N> {
    octaves: Vec<Octave<N>>,
}

impl<N> Octave<N> {
    /// The wrapped noise source.
    pub closed spec fn spec_noise(&self) -> N {
        self.noise
    }

    /// The fixed amplitude.
    pub closed spec fn spec_amplitude(&self) -> i64 {
        self.amplitude
    }

    /// Pair a noise source with an amplitude.
    pub fn new(noise: N, amplitude: i64) -> (r: Octave<N>)
        ensures
            r.spec_noise() == noise,
            r.spec_amplitude() == amplitude,
    {
        Octave { noise, amplitude }
    }

    /// The wrapped noise source.
    pub fn noise(&self) -> (r: &N)
        ensures
            r == self.spec_noise(),
    {
        &self.noise
    }

    /// The wrapped noise source.
    pub fn inner_noise(&self) -> (r: &N)
        ensures
            r == self.spec_noise(),
    {
        &self.noise
    }

    /// The fixed amplitude.
    pub fn amplitude(&self) -> (r: i64)
        ensures
            r == self.spec_amplitude(),
    {
        self.amplitude
    }
}

impl<P: Copy, N: Noise<P>> Noise<P> for Octave<N> {
    open spec fn wf(&self) -> bool {
        self.spec_noise().wf()
    }

    open spec fn valid_at(&self, p: P) -> bool {
        &&& self.spec_noise().valid_at(p)
        &&& fits_i64(fxmul(self.spec_noise().spec_value(p), self.spec_amplitude() as int))
    }

    open spec fn spec_value(&self, p: P) -> int {
        fxmul(self.spec_noise().spec_value(p), self.spec_amplitude() as int)
    }

    open spec fn frequency_defined(&self) -> bool {
        self.spec_noise().frequency_defined()
    }

    open spec fn spec_frequency(&self) -> P {
        self.spec_noise().spec_frequency()
    }

    fn value_at(&self, p: P) -> (v: i64) {
        let inner = self.noise.value_at(p);
        fx_mul(inner, self.amplitude)
    }

    fn frequency(&self) -> (f: P) {
        self.noise.frequency()
    }
}

/// Every octave in the sequence is well-formed.
pub open spec fn octaves_wf<P: Copy, N: Noise<P>>(s: Seq<Octave<N>>) -> bool {
    forall|i: int| 0 <= i < s.len() ==> (#[trigger] s[i]).wf()
}

/// The amplitude-weighted sum of the octaves' values at a point.
pub open spec fn octaves_sum<P: Copy, N: Noise<P>>(s: Seq<Octave<N>>, p: P) -> int
    decreases s.len(),
{
    if s.len() == 0 {
        0
    } else {
        octaves_sum(s.drop_last(), p) + s.last().spec_value(p)
    }
}

/// Every octave can be evaluated at `p` and every partial sum stays
/// representable.
pub open spec fn octaves_ok<P: Copy, N: Noise<P>>(s: Seq<Octave<N>>, p: P) -> bool
    decreases s.len(),
{
    if s.len() == 0 {
        true
    } else {
        &&& octaves_ok(s.drop_last(), p)
        &&& s.last().valid_at(p)
        &&& fits_i64(octaves_sum(s, p))
    }
}

/// The sum of the octaves' amplitudes.
pub open spec fn octaves_amplitude_sum<N>(s: Seq<Octave<N>>) -> int
    decreases s.len(),
{
    if s.len() == 0 {
        0
    } else {
        octaves_amplitude_sum(s.drop_last()) + s.last().spec_amplitude()
    }
}

/// A prefix of an evaluable octave sequence is evaluable.
proof fn lemma_octaves_ok_prefix<P: Copy, N: Noise<P>>(s: Seq<Octave<N>>, p: P, i: int)
    requires
        octaves_ok(s, p),
        0 <= i <= s.len(),
    ensures
        octaves_ok(s.subrange(0, i), p),
    decreases s.len() - i,
{
    if i == s.len() {
        assert(s.subrange(0, i) =~= s);
    } else {
        lemma_octaves_ok_prefix(s, p, i + 1);
        assert(s.subrange(0, i + 1).drop_last() =~= s.subrange(0, i));
    }
}

impl<N> OctaveNoise<N> {
    /// The octaves, in evaluation order.
    pub closed spec fn spec_octaves(&self) -> Seq<Octave<N>> {
        self.octaves@
    }

    /// An empty octave sequence: its value is zero everywhere and its
    /// frequency is undefined.
    pub fn new() -> (r: OctaveNoise<N>)
        ensures
            r.spec_octaves().len() == 0,
    {
        OctaveNoise { octaves: Vec::new() }
    }

    /// Wrap an octave list.
    pub fn from_octaves(octaves: Vec<Octave<N>>) -> (r: OctaveNoise<N>)
        ensures
            r.spec_octaves() == octaves@,
    {
        OctaveNoise { octaves }
    }

    /// The octaves, in evaluation order.
    pub fn octaves(&self) -> (r: &Vec<Octave<N>>)
        ensures
            r@ == self.spec_octaves(),
    {
        &self.octaves
    }

    /// The number of octaves.
    pub fn num_octaves(&self) -> (r: usize)
        ensures
            r == self.spec_octaves().len(),
    {
        self.octaves.len()
    }

    /// The frequency of the first octave, or the distinct no-data error on
    /// an empty sequence.
    pub fn try_frequency<P: Copy>(&self) -> (result: Result<P, NoiseError>) where N: Noise<P>
        requires
            self.wf(),
    ensures
            match result {
                Ok(f) => self.spec_octaves().len() > 0 && self.frequency_defined() && f
                    == self.spec_frequency(),
                Err(e) => {
                    &&& e == NoiseError::EmptyOctaves
                    &&& self.spec_octaves().len() == 0
                },
            },
    {
        if self.octaves.len() == 0 {
            return Err(NoiseError::EmptyOctaves);
        }
        Ok(self.octaves[0].frequency())
    }
}

impl<P: Copy, N: Noise<P>> Noise<P> for OctaveNoise<N> {
    open spec fn wf(&self) -> bool {
        &&& octaves_wf(self.spec_octaves())
        &&& forall|i: int|
            0 <= i < self.spec_octaves().len() ==> (#[trigger] self.spec_octaves()[i])
                .frequency_defined()
    }

    open spec fn valid_at(&self, p: P) -> bool {
        octaves_ok(self.spec_octaves(), p)
    }

    open spec fn spec_value(&self, p: P) -> int {
        octaves_sum(self.spec_octaves(), p)
    }

    open spec fn frequency_defined(&self) -> bool {
        self.spec_octaves().len() > 0
    }

    open spec fn spec_frequency(&self) -> P {
        self.spec_octaves()[0].spec_frequency()
    }

    fn value_at(&self, p: P) -> (v: i64) {
        let ghost s = self.spec_octaves();
        let mut sum: i64 = 0;
        let mut i: usize = 0;
        proof {
            assert(s.subrange(0, 0) =~= Seq::<Octave<N>>::empty());
        }
        while i < self.octaves.len()
            invariant
                0 <= i <= s.len(),
                s == self.spec_octaves(),
                octaves_wf(s),
                octaves_ok(s, p),
                s.len() == self.spec_octaves().len(),
                sum as int == octaves_sum(s.subrange(0, i as int), p),
            decreases s.len() - i,
        {
            proof {
                lemma_octaves_ok_prefix(s, p, i as int + 1);
                assert(s.subrange(0, i as int + 1).drop_last() =~= s.subrange(0, i as int));
                assert(s.subrange(0, i as int + 1).last() == s[i as int]);
            }
            let v = self.octaves[i].value_at(p);
            sum = sum + v;
            i = i + 1;
        }
        proof {
            assert(s.subrange(0, s.len() as int) =~= s);
        }
        sum
    }

    fn frequency(&self) -> (f: P) {
        self.octaves[0].frequency()
    }
}

/// Law: an empty octave sequence sums to zero at every point.
pub proof fn lemma_empty_octaves_value_zero<P: Copy, N: Noise<P>>(n: &OctaveNoise<N>, p: P)
    requires
        n.spec_octaves().len() == 0,
    ensures
        n.spec_value(p) == 0,
{
}


/// A strategy producing the evaluator of one octave from its index,
/// frequency and amplitude (typically a fresh gradient-noise instance over a
/// fresh or shared gradient table).
pub trait NoiseFactory<P: Copy, N: Noise<P>>: Sized {
    /// The factory's own invariant (for example, that a shared gradient
    /// table it clones from is well-formed).
    spec fn nf_wf(&self) -> bool;

    /// Build the evaluator of one octave.
    fn build(&mut self, octave_index: u32, frequency: P, amplitude: i64) -> (n: N)
        requires
            old(self).nf_wf(),
        ensures
            final(self).nf_wf(),
            n.wf(),
            n.frequency_defined(),
    ;
}

/// The raw weight of octave `i`: `1 / persistence^(i+1)` in fixed point,
/// computed by repeated fixed-point division.
pub open spec fn spec_geometric_weight(persistence: int, i: int) -> int
    decreases i,
{
    if i <= 0 {
        fxdiv(65536, persistence)
    } else {
        fxdiv(spec_geometric_weight(persistence, i - 1), persistence)
    }
}

/// The sum of the first `n` raw weights.
pub open spec fn spec_weight_sum(persistence: int, n: int) -> int
    decreases n,
{
    if n <= 0 {
        0
    } else {
        spec_weight_sum(persistence, n - 1) + spec_geometric_weight(persistence, n - 1)
    }
}

/// The normalized amplitude of octave `i` in a fractal of `n` octaves: the
/// raw weight divided by the weight sum, in fixed point.
pub open spec fn spec_normalized_amplitude(persistence: int, n: int, i: int) -> int {
    spec_geometric_weight(persistence, i) * 65536 / spec_weight_sum(persistence, n)
}

/// The sum of the first `i` entries of an amplitude list.
pub open spec fn amps_prefix_sum(s: Seq<i64>, i: int) -> int
    decreases i,
{
    if i <= 0 {
        0
    } else {
        amps_prefix_sum(s, i - 1) + s[i - 1]
    }
}

/// Dividing a unit-range value by a persistence of at least one shrinks it
/// and keeps it nonnegative.
proof fn lemma_fxdiv_shrinks(x: int, p: int)
    requires
        0 <= x,
        65536 <= p,
    ensures
        0 <= fxdiv(x, p) <= x,
{
    vstd::arithmetic::mul::lemma_mul_nonnegative(x, 65536);
    vstd::arithmetic::div_mod::lemma_div_pos_is_pos(x * 65536, p);
    vstd::arithmetic::div_mod::lemma_div_is_ordered_by_denominator(x * 65536, 65536, p);
    vstd::arithmetic::div_mod::lemma_div_by_multiple(x, 65536);
    vstd::arithmetic::mul::lemma_mul_is_commutative(x, 65536);
}

/// Raw weights lie within `[0, ONE]`.
proof fn lemma_weight_bounds(persistence: int, i: int)
    requires
        65536 <= persistence,
    ensures
        0 <= spec_geometric_weight(persistence, i) <= 65536,
    decreases i,
{
    if i <= 0 {
        lemma_fxdiv_shrinks(65536, persistence);
    } else {
        lemma_weight_bounds(persistence, i - 1);
        lemma_fxdiv_shrinks(spec_geometric_weight(persistence, i - 1), persistence);
    }
}

/// The first raw weight is positive whenever the persistence is at most
/// `ONE * ONE`.
proof fn lemma_first_weight_positive(persistence: int)
    requires
        65536 <= persistence <= 65536 * 65536,
    ensures
        spec_geometric_weight(persistence, 0) >= 1,
{
    vstd::arithmetic::div_mod::lemma_div_is_ordered_by_denominator(
        65536int * 65536,
        persistence,
        65536int * 65536,
    );
    vstd::arithmetic::div_mod::lemma_div_by_self(65536int * 65536);
}

/// Weight sums grow with the octave count.
proof fn lemma_weight_sum_monotone(persistence: int, m: int, n: int)
    requires
        65536 <= persistence,
        m <= n,
    ensures
        spec_weight_sum(persistence, m) <= spec_weight_sum(persistence, n),
    decreases n - m,
{
    if m < n {
        lemma_weight_sum_monotone(persistence, m, n - 1);
        lemma_weight_bounds(persistence, n - 1);
    }
}

/// Weight sums are nonnegative and bounded by the octave count.
proof fn lemma_weight_sum_bounds(persistence: int, n: int)
    requires
        65536 <= persistence,
        0 <= n,
    ensures
        0 <= spec_weight_sum(persistence, n) <= n * 65536,
    decreases n,
{
    if n <= 0 {
        assert(spec_weight_sum(persistence, 0) == 0);
    } else {
        lemma_weight_sum_bounds(persistence, n - 1);
        lemma_weight_bounds(persistence, n - 1);
        assert(n * 65536 == (n - 1) * 65536 + 65536) by (nonlinear_arith);
    }
}

/// Construct `n` octaves whose frequencies scale geometrically and whose
/// amplitudes, the inverse powers of the persistence normalized by their
/// total, sum to exactly `ONE`.
///
/// Octave `i` receives frequency `initial_frequency * frequency_scaling^(i+1)`
/// and amplitude `weight(i) / sum_of_weights` in fixed point, with the
/// rounding remainder assigned to octave `0` so that the amplitudes sum to
/// exactly `ONE` whatever `n` and the persistence.
pub fn build_geometric_fractal_noise<P: Copy + PointUtil, N: Noise<P>, F: NoiseFactory<P, N>>(
    initial_frequency: P,
    num_octaves: u32,
    frequency_scaling: P,
    persistence: i64,
    noise_builder: &mut F,
) -> (result: OctaveNoise<N>)
    requires
        old(noise_builder).nf_wf(),
        ONE <= persistence <= ONE * ONE,
        num_octaves <= 0x10000,
        spec_frequency_steps_ok(initial_frequency, frequency_scaling, num_octaves as int),
    ensures
        final(noise_builder).nf_wf(),
        result.spec_octaves().len() == num_octaves as int,
        result.wf(),
        forall|i: int|
            1 <= i < num_octaves as int ==> (#[trigger] result.spec_octaves()[i]).spec_amplitude()
                as int == spec_normalized_amplitude(
                persistence as int,
                num_octaves as int,
                i,
            ),
        num_octaves > 0 ==> octaves_amplitude_sum(result.spec_octaves()) == ONE,
        forall|i: int|
            0 <= i < num_octaves as int ==> 0 <= (#[trigger] result.spec_octaves()[i])
                .spec_amplitude() <= ONE,
{
    proof {
        assert(ONE == 65536);
    }
    let pers: i64 = persistence;
    let n: usize = num_octaves as usize;
    if n == 0 {
        let empty: OctaveNoise<N> = OctaveNoise::from_octaves(Vec::new());
        return empty;
    }
    // Raw weights: weight(i) = 1 / persistence^(i+1), by repeated division.
    let mut weights: Vec<i64> = Vec::new();
    let mut i: usize = 0;
    while i < n
        invariant
            ONE <= pers <= ONE * ONE,
            i <= n,
            weights@.len() == i as int,
            forall|k: int|
                0 <= k < i as int ==> #[trigger] weights@[k] as int == spec_geometric_weight(
                    pers as int,
                    k,
                ) && 0 <= weights@[k] <= ONE,
        decreases n - i,
    {
        proof {
            assert(ONE == 65536);
            if i == 0 {
                lemma_fxdiv_shrinks(65536, pers as int);
            } else {
                lemma_fxdiv_shrinks(weights@[i as int - 1] as int, pers as int);
            }
        }
        let w: i64 = if i == 0 {
            crate::fixed::fx_div(ONE, pers)
        } else {
            crate::fixed::fx_div(weights[i - 1], pers)
        };
        weights.push(w);
        i = i + 1;
    }
    // The weight total; positive because the first weight is.
    let mut total: i64 = 0;
    let mut i: usize = 0;
    while i < n
        invariant
            ONE <= pers <= ONE * ONE,
            i <= n,
            n <= 0x10000,
            weights@.len() == n as int,
            forall|k: int|
                0 <= k < n as int ==> #[trigger] weights@[k] as int == spec_geometric_weight(
                    pers as int,
                    k,
                ) && 0 <= weights@[k] <= ONE,
            total as int == spec_weight_sum(pers as int, i as int),
            0 <= total <= (i as int) * 65536,
        decreases n - i,
    {
        proof {
            assert((i as int + 1) * 65536 == (i as int) * 65536 + 65536) by (nonlinear_arith);
        }
        total = total + weights[i];
        i = i + 1;
    }
    proof {
        assert(ONE == 65536);
        lemma_first_weight_positive(pers as int);
        lemma_weight_sum_monotone(pers as int, 1, n as int);
        assert(spec_weight_sum(pers as int, 0) == 0);
        assert(spec_weight_sum(pers as int, 1) == spec_geometric_weight(pers as int, 0));
    }
    // Normalized tail amplitudes (octaves 1 and up), and their running sum.
    let ghost big_w = total as int;
    let mut rest: Vec<i64> = Vec::new();
    let mut tail: i64 = 0;
    let mut i: usize = 1;
    while i < n
        invariant
            ONE <= pers <= ONE * ONE,
            1 <= i <= n,
            n <= 0x10000,
            weights@.len() == n as int,
            forall|k: int|
                0 <= k < n as int ==> #[trigger] weights@[k] as int == spec_geometric_weight(
                    pers as int,
                    k,
                ) && 0 <= weights@[k] <= ONE,
            1 <= big_w,
            big_w == total as int,
            big_w == spec_weight_sum(pers as int, n as int),
            rest@.len() == i as int - 1,
            forall|k: int|
                0 <= k < i as int - 1 ==> #[trigger] rest@[k] as int == spec_normalized_amplitude(
                    pers as int,
                    n as int,
                    k + 1,
                ) && 0 <= rest@[k] <= ONE,
            0 <= tail <= (i as int - 1) * 65536,
            tail as int == amps_prefix_sum(rest@, i as int - 1),
            big_w * (tail as int) <= 65536 * (spec_weight_sum(pers as int, i as int)
                - spec_geometric_weight(pers as int, 0)),
        decreases n - i,
    {
        let w: i64 = weights[i];
        let a: i64 = (w * 65536) / total;
        proof {
            assert(ONE == 65536);
            vstd::arithmetic::mul::lemma_mul_nonnegative(w as int, 65536);
            vstd::arithmetic::div_mod::lemma_div_pos_is_pos(w as int * 65536, big_w);
            // a <= ONE because w <= total
            assert(spec_weight_sum(pers as int, i as int) + spec_geometric_weight(pers as int, i as int)
                == spec_weight_sum(pers as int, i as int + 1));
            lemma_weight_sum_monotone(pers as int, i as int + 1, n as int);
            lemma_weight_sum_bounds(pers as int, i as int);
            assert(w as int <= big_w);
            assert(w as int * 65536 <= big_w * 65536) by (nonlinear_arith)
                requires
                    w as int <= big_w,
            ;
            vstd::arithmetic::div_mod::lemma_div_is_ordered(w as int * 65536, big_w * 65536, big_w);
            vstd::arithmetic::div_mod::lemma_div_by_multiple(65536, big_w);
            vstd::arithmetic::mul::lemma_mul_is_commutative(65536, big_w);
            // the running bound: big_w * (tail + a) <= 65536 * (sum(i+1) - w0)
            vstd::arithmetic::div_mod::lemma_fundamental_div_mod(w as int * 65536, big_w);
            vstd::arithmetic::div_mod::lemma_mod_bound(w as int * 65536, big_w);
            let a_spec = (w as int * 65536) / big_w;
            assert(big_w * a_spec <= w as int * 65536);
            assert(big_w * (tail as int + a_spec) == big_w * (tail as int) + big_w * a_spec)
                by (nonlinear_arith);
            assert(65536 * (spec_weight_sum(pers as int, i as int) - spec_geometric_weight(
                pers as int,
                0,
            )) + 65536 * (w as int) == 65536 * (spec_weight_sum(pers as int, i as int + 1)
                - spec_geometric_weight(pers as int, 0))) by (nonlinear_arith)
                requires
                    spec_weight_sum(pers as int, i as int) + (w as int) == spec_weight_sum(
                        pers as int,
                        i as int + 1,
                    ),
            ;
            assert((i as int) * 65536 == (i as int - 1) * 65536 + 65536) by (nonlinear_arith);
        }
        let ghost rest_before = rest@;
        rest.push(a);
        proof {
            lemma_prefix_sum_agree(rest@, rest_before, i as int - 1);
        }
        tail = tail + a;
        i = i + 1;
    }
    // The head amplitude takes the rounding remainder, so the sum is ONE.
    proof {
        assert(ONE == 65536);
        lemma_weight_bounds(pers as int, 0);
        assert(spec_weight_sum(pers as int, n as int) - spec_geometric_weight(pers as int, 0)
            <= big_w);
        assert(big_w * (tail as int) <= big_w * 65536) by (nonlinear_arith)
            requires
                big_w * (tail as int) <= 65536 * (spec_weight_sum(pers as int, n as int)
                    - spec_geometric_weight(pers as int, 0)),
                spec_weight_sum(pers as int, n as int) - spec_geometric_weight(pers as int, 0)
                    <= big_w,
        ;
        assert(tail as int <= 65536) by (nonlinear_arith)
            requires
                big_w * (tail as int) <= big_w * 65536,
                big_w >= 1,
        ;
    }
    let head: i64 = ONE - tail;
    // Assemble the amplitude list: the head, then the tail amplitudes.
    let mut amps: Vec<i64> = Vec::new();
    amps.push(head);
    let ghost rest_snapshot = rest@;
    amps.append(&mut rest);
    proof {
        assert(amps@ =~= seq![head].add(rest_snapshot));
        lemma_prefix_shift(rest_snapshot, head, n as int - 1);
        lemma_prefix_nonneg_total(rest_snapshot, n as int - 1);
    }
    // Build the octaves, scaling the frequency before each.
    let mut octaves: Vec<Octave<N>> = Vec::new();
    let mut freq: P = initial_frequency;
    let mut i: usize = 0;
    while i < n
        invariant
            i <= n,
            n <= 0x10000,
            amps@.len() == n as int,
            forall|k: int| 0 <= k < n as int ==> 0 <= #[trigger] amps@[k] <= ONE,
            forall|k: int|
                1 <= k < n as int ==> #[trigger] amps@[k] as int == spec_normalized_amplitude(
                    pers as int,
                    n as int,
                    k,
                ),
            octaves@.len() == i as int,
            forall|k: int|
                0 <= k < i as int ==> (#[trigger] octaves@[k]).spec_amplitude() == amps@[k],
            forall|k: int| 0 <= k < i as int ==> (#[trigger] octaves@[k]).wf(),
            forall|k: int|
                0 <= k < i as int ==> (#[trigger] octaves@[k]).frequency_defined(),
            octaves_amplitude_sum(octaves@) == amps_prefix_sum(amps@, i as int),
            spec_frequency_steps_ok(freq, frequency_scaling, (n - i) as int),
            noise_builder.nf_wf(),
        decreases n - i,
    {
        freq = freq.axis_mul(frequency_scaling);
        let amplitude: i64 = amps[i];
        let noise = noise_builder.build(i as u32, freq, amplitude);
        let ghost before = octaves@;
        octaves.push(Octave::new(noise, amplitude));
        proof {
            assert(octaves@.drop_last() =~= before);
        }
        i = i + 1;
    }
    proof {
        assert(amps_prefix_sum(amps@, n as int) == head as int + amps_prefix_sum(
            rest_snapshot,
            n as int - 1,
        ));
    }
    OctaveNoise::from_octaves(octaves)
}


/// Scaling by a nonnegative amplitude bounds the product against the
/// amplitude times the value bound: `|fxmul(v, a)| * ONE <= r * a`.
proof fn lemma_octave_term_bounded(v: int, a: int, r: int)
    requires
        0 <= r,
        0 <= a,
        -r <= v <= r,
    ensures
        -(r * a) <= fxmul(v, a) * 65536 <= r * a,
{
    assert(-(r * a) <= v * a <= r * a) by (nonlinear_arith)
        requires
            0 <= r,
            0 <= a,
            -r <= v <= r,
    ;
    let x = v * a;
    if x >= 0 {
        vstd::arithmetic::div_mod::lemma_fundamental_div_mod(x, 65536);
        vstd::arithmetic::div_mod::lemma_mod_bound(x, 65536);
        vstd::arithmetic::div_mod::lemma_div_pos_is_pos(x, 65536);
    } else {
        vstd::arithmetic::div_mod::lemma_fundamental_div_mod(-x, 65536);
        vstd::arithmetic::div_mod::lemma_mod_bound(-x, 65536);
        vstd::arithmetic::div_mod::lemma_div_pos_is_pos(-x, 65536);
    }
}

/// Law: a normalized octave sum preserves its octaves' range. Where every
/// octave's inner value at `p` lies within `[-r, r]` and the amplitudes are
/// nonnegative, the weighted sum lies within `[-r, r]` scaled by the
/// amplitude sum; with amplitudes summing to exactly `ONE` (as the geometric
/// fractal builder guarantees), the fractal's value stays within the range
/// of a single octave, whatever the octave count and persistence.
pub proof fn lemma_octaves_sum_bounded<P: Copy, N: Noise<P>>(s: Seq<Octave<N>>, p: P, r: int)
    requires
        0 <= r,
        forall|i: int|
            0 <= i < s.len() ==> -r <= (#[trigger] s[i]).spec_noise().spec_value(p) <= r,
        forall|i: int| 0 <= i < s.len() ==> 0 <= (#[trigger] s[i]).spec_amplitude(),
    ensures
        -(octaves_amplitude_sum(s) * r) <= octaves_sum(s, p) * 65536 <= octaves_amplitude_sum(s)
            * r,
    decreases s.len(),
{
    if s.len() == 0 {
        assert(octaves_sum(s, p) * 65536 == 0) by (nonlinear_arith)
            requires
                octaves_sum(s, p) == 0,
        ;
        assert(octaves_amplitude_sum(s) * r == 0) by (nonlinear_arith)
            requires
                octaves_amplitude_sum(s) == 0,
        ;
    } else {
        let rest = s.drop_last();
        let last = s.last();
        lemma_octaves_sum_bounded(rest, p, r);
        lemma_octave_term_bounded(
            last.spec_noise().spec_value(p),
            last.spec_amplitude() as int,
            r,
        );
        assert((octaves_sum(rest, p) + last.spec_value(p)) * 65536 == octaves_sum(rest, p) * 65536
            + last.spec_value(p) * 65536) by (nonlinear_arith);
        assert((octaves_amplitude_sum(rest) + last.spec_amplitude()) * r == octaves_amplitude_sum(
            rest,
        ) * r + last.spec_amplitude() * r) by (nonlinear_arith);
        assert(r * (last.spec_amplitude() as int) == (last.spec_amplitude() as int) * r)
            by (nonlinear_arith);
    }
}

/// Law: a fractal whose amplitudes sum to exactly `ONE` stays within the
/// range of its octaves.
pub proof fn lemma_fractal_sum_preserves_range<P: Copy, N: Noise<P>>(
    n: &OctaveNoise<N>,
    p: P,
    r: int,
)
    requires
        0 <= r,
        octaves_amplitude_sum(n.spec_octaves()) == ONE,
        forall|i: int|
            0 <= i < n.spec_octaves().len() ==> -r <= (#[trigger] n.spec_octaves()[i]).spec_noise()
                .spec_value(p) <= r,
        forall|i: int|
            0 <= i < n.spec_octaves().len() ==> 0 <= (#[trigger] n.spec_octaves()[i])
                .spec_amplitude(),
    ensures
        -r <= n.spec_value(p) <= r,
{
    lemma_octaves_sum_bounded(n.spec_octaves(), p, r);
    assert(ONE == 65536);
    assert(-r <= octaves_sum(n.spec_octaves(), p) <= r) by (nonlinear_arith)
        requires
            -(65536 * r) <= octaves_sum(n.spec_octaves(), p) * 65536 <= 65536 * r,
    ;
}

/// Each step of the geometric frequency progression stays representable.
pub open spec fn spec_frequency_steps_ok<P: PointUtil>(initial: P, scaling: P, n: int) -> bool
    decreases n,
{
    if n <= 0 {
        true
    } else {
        initial.mul_ok(scaling) && spec_frequency_steps_ok(
            initial.spec_axis_mul(scaling),
            scaling,
            n - 1,
        )
    }
}

/// Prefix sums look only at the prefix: two lists agreeing below `i` have
/// the same `i`-prefix sum.
proof fn lemma_prefix_sum_agree(s1: Seq<i64>, s2: Seq<i64>, i: int)
    requires
        0 <= i <= s1.len(),
        i <= s2.len(),
        forall|k: int| 0 <= k < i ==> s1[k] == s2[k],
    ensures
        amps_prefix_sum(s1, i) == amps_prefix_sum(s2, i),
    decreases i,
{
    if i > 0 {
        lemma_prefix_sum_agree(s1, s2, i - 1);
    }
}

/// Prepending a head value shifts a prefix sum.
proof fn lemma_prefix_shift(s: Seq<i64>, head: i64, i: int)
    requires
        0 <= i <= s.len(),
    ensures
        amps_prefix_sum(seq![head].add(s), i + 1) == head as int + amps_prefix_sum(s, i),
    decreases i,
{
    if i == 0 {
        assert(amps_prefix_sum(seq![head].add(s), 1) == amps_prefix_sum(seq![head].add(s), 0)
            + seq![head].add(s)[0]);
    } else {
        lemma_prefix_shift(s, head, i - 1);
        assert(seq![head].add(s)[i] == s[i - 1]);
    }
}

/// A prefix sum of values in `[0, ONE]` equals the running total tracked by
/// the tail loop; here only its value as the full sum is needed.
proof fn lemma_prefix_nonneg_total(s: Seq<i64>, i: int)
    requires
        0 <= i <= s.len(),
        forall|k: int| 0 <= k < s.len() ==> 0 <= #[trigger] s[k],
    ensures
        0 <= amps_prefix_sum(s, i),
    decreases i,
{
    if i > 0 {
        lemma_prefix_nonneg_total(s, i - 1);
    }
}

} // verus!
