//! Gradient-noise evaluators (the Perlin core).
//!
//! For each dimensionality: scale the normalized input coordinate by the
//! frequency to a lattice-space position, split it into the cell's lower
//! corner and the fractional offset, take at every cell corner the dot
//! product of the corner gradient with the corner-to-point offset,
//! interpolate across the axes through the configured kernel, and rescale by
//! the dimension-dependent normalization constant (`2` for one dimension,
//! `sqrt(2)` for two and three).

use vstd::prelude::*;

verus! {

use crate::error::NoiseError;
use crate::fixed::{
    ONE, SQRT_2, fxmul, fxlerp, fits_i64, fx_mul, fx_lerp, lemma_fxmul_unit_abs, lemma_fxlerp_minmax,
    lemma_cell_bounds,
};
use crate::gradient::{GradientProvider, GradientVector, Lattice2, Lattice3};
use crate::point::{Point2, Point3};
use crate::interpolate::{InterpolationFunction, Hermite5thOrderInterpolator};
use crate::noise::Noise;
use crate::octave::OctaveNoise;

/// The largest frequency a gradient-noise evaluator accepts: lattice corner
/// indices stay within 32 bits.
pub const MAX_FREQUENCY: i64 = 0x8000_0000 * 65536;

/// One-dimensional gradient noise.
///
/// Evaluates over coordinates normalized to `[0, ONE)`, scaled by a fixed
/// frequency into a gradient lattice supplied by the provider `G`.
#[derive(Clone, Debug)]
pub struct Perlin1d<G, P> {
    frequency: i64,
    gradients: G,
    interp: P,
}

impl<G: GradientProvider<u32, i64>, P: InterpolationFunction> Perlin1d<G, P> {
    /// The gradient provider.
    pub closed spec fn spec_gradients(&self) -> G {
        self.gradients
    }

    /// The interpolation kernel.
    pub closed spec fn spec_interp(&self) -> P {
        self.interp
    }

    /// The lattice-space cell position of a normalized coordinate.
    pub open spec fn spec_cell(&self, x: int) -> int {
        fxmul(x, self.spec_frequency() as int)
    }

    /// Replace the interpolation kernel, keeping frequency and gradients.
    pub fn with_interpolator<P2: InterpolationFunction>(self, interpolator: P2) -> (r: Perlin1d<
        G,
        P2,
    >)
        ensures
            r.spec_frequency() == self.spec_frequency(),
            r.spec_gradients() == self.spec_gradients(),
            r.spec_interp() == interpolator,
    {
        Perlin1d { frequency: self.frequency, gradients: self.gradients, interp: interpolator }
    }

    /// Exchange the frequency, keeping gradients and kernel; the new
    /// frequency must not exceed a bounded provider's extent.
    pub fn with_frequency(self, frequency: i64) -> (result: Result<Perlin1d<G, P>, NoiseError>)
        requires
            0 < frequency <= MAX_FREQUENCY,
            self.wf(),
        ensures
            match result {
                Ok(r) => {
                    &&& r.wf()
                    &&& r.spec_frequency() == frequency
                    &&& r.spec_gradients() == self.spec_gradients()
                    &&& r.spec_interp() == self.spec_interp()
                },
                Err(e) => {
                    &&& e == NoiseError::FrequencyTooLarge
                    &&& match self.spec_gradients().spec_max_dimensions() {
                        Some(d) => frequency as int > (d as int) * (ONE as int),
                        None => false,
                    }
                },
            },
    {
        proof {
            assert(ONE == 65536);
        }
        match self.gradients.max_dimensions() {
            Some(d) => {
                if frequency > (d as i64) * ONE {
                    return Err(NoiseError::FrequencyTooLarge);
                }
            },
            None => {},
        }
        Ok(Perlin1d { frequency, gradients: self.gradients, interp: self.interp })
    }
}

impl<G: GradientProvider<u32, i64>> Perlin1d<G, Hermite5thOrderInterpolator> {
    /// Gradient noise over the given provider with the default (5th-order
    /// Hermite) kernel. The frequency must not exceed a bounded provider's
    /// extent: exceeding it would read out-of-range lattice gradients.
    pub fn new(frequency: i64, gradients: G) -> (result: Result<
        Perlin1d<G, Hermite5thOrderInterpolator>,
        NoiseError,
    >)
        requires
            0 < frequency <= MAX_FREQUENCY,
            gradients.wf(),
        ensures
            match result {
                Ok(r) => {
                    &&& r.wf()
                    &&& r.spec_frequency() == frequency
                    &&& r.spec_gradients() == gradients
                    &&& match gradients.spec_max_dimensions() {
                        Some(d) => frequency as int <= (d as int) * (ONE as int),
                        None => true,
                    }
                },
                Err(e) => {
                    &&& e == NoiseError::FrequencyTooLarge
                    &&& match gradients.spec_max_dimensions() {
                        Some(d) => frequency as int > (d as int) * (ONE as int),
                        None => false,
                    }
                },
            },
    {
        proof {
            assert(ONE == 65536);
        }
        match gradients.max_dimensions() {
            Some(d) => {
                if frequency > (d as i64) * ONE {
                    return Err(NoiseError::FrequencyTooLarge);
                }
            },
            None => {},
        }
        Ok(Perlin1d { frequency, gradients, interp: Hermite5thOrderInterpolator::new() })
    }
}

/// The lower corner of the lattice cell holding position `cell`.
pub open spec fn spec_corner(cell: int) -> int {
    cell / 65536
}

/// The fractional offset of a lattice position within its cell.
pub open spec fn spec_offset(cell: int) -> int {
    cell % 65536
}

impl<G: GradientProvider<u32, i64>, P: InterpolationFunction> Noise<i64> for Perlin1d<G, P> {
    open spec fn wf(&self) -> bool {
        &&& self.spec_gradients().wf()
        &&& 0 < self.spec_frequency() <= MAX_FREQUENCY
        &&& match self.spec_gradients().spec_max_dimensions() {
            Some(d) => self.spec_frequency() as int <= (d as int) * (ONE as int),
            None => true,
        }
    }

    open spec fn valid_at(&self, p: i64) -> bool {
        0 <= p < ONE
    }

    open spec fn spec_value(&self, p: i64) -> int {
        let cell = self.spec_cell(p as int);
        let x0 = spec_corner(cell);
        let rel = spec_offset(cell);
        let g0 = self.spec_gradients().spec_gradient(x0 as u32);
        let g1 = self.spec_gradients().spec_gradient((x0 + 1) as u32);
        let v0 = fxmul(g0 as int, rel);
        let v1 = fxmul(g1 as int, rel - ONE);
        let t = self.spec_interp().spec_interp(rel);
        2 * fxlerp(v0, v1, t)
    }

    open spec fn frequency_defined(&self) -> bool {
        true
    }

    closed spec fn spec_frequency(&self) -> i64 {
        self.frequency
    }

    fn value_at(&self, p: i64) -> (v: i64) {
        proof {
            assert(ONE == 65536);
            lemma_cell_bounds(p as int, self.spec_frequency() as int);
        }
        let cell: i64 = fx_mul(p, self.frequency);
        let x0: i64 = cell / 65536;
        let rel: i64 = cell % 65536;
        proof {
            vstd::arithmetic::div_mod::lemma_mod_bound(cell as int, 65536);
            vstd::arithmetic::div_mod::lemma_div_pos_is_pos(cell as int, 65536);
            vstd::arithmetic::div_mod::lemma_multiply_divide_lt(cell as int, 65536, 0x8000_0000);
            lemma_corner_in_extent::<i64, G>(&self.gradients, self.frequency as int, cell as int, x0 as int);
        }
        let c0: u32 = x0 as u32;
        let c1: u32 = c0 + 1;
        let g0: i64 = self.gradients.get_gradient(c0);
        let g1: i64 = self.gradients.get_gradient(c1);
        proof {
            self.gradients.lemma_gradient_ok(c0);
            self.gradients.lemma_gradient_ok(c1);
            lemma_fxmul_unit_abs(g0 as int, rel as int, ONE as int);
            lemma_fxmul_unit_abs(g1 as int, (rel - ONE) as int, ONE as int);
        }
        let v0: i64 = fx_mul(g0, rel);
        let v1: i64 = fx_mul(g1, rel - ONE);
        let t: i64 = self.interp.interpolation_value(rel);
        proof {
            self.interp.lemma_interp_range(rel as int);
            lemma_fxlerp_minmax(v0 as int, v1 as int, t as int);
        }
        2 * fx_lerp(v0, v1, t)
    }

    fn frequency(&self) -> (f: i64) {
        self.frequency
    }
}

/// For a lattice position below the frequency, both corners of its cell lie
/// within the provider's extent.
proof fn lemma_corner_in_extent<G: GradientVector, Pr: GradientProvider<u32, G>>(
    gradients: &Pr,
    freq: int,
    cell: int,
    x0: int,
)
    requires
        gradients.wf(),
        0 < freq <= MAX_FREQUENCY,
        0 <= cell < freq,
        x0 == cell / 65536,
        match gradients.spec_max_dimensions() {
            Some(d) => freq <= (d as int) * (ONE as int),
            None => true,
        },
    ensures
        0 <= x0 < 0x8000_0000,
        gradients.in_extent(x0 as u32),
        gradients.in_extent((x0 + 1) as u32),
{
    assert(ONE == 65536);
    vstd::arithmetic::div_mod::lemma_div_pos_is_pos(cell, 65536);
    vstd::arithmetic::div_mod::lemma_multiply_divide_lt(cell, 65536, 0x8000_0000);
    match gradients.spec_max_dimensions() {
        Some(d) => {
            vstd::arithmetic::div_mod::lemma_multiply_divide_lt(cell, 65536, d as int);
            vstd::arithmetic::mul::lemma_mul_is_commutative(d as int, 65536);
            gradients.lemma_extent(x0 as u32);
            gradients.lemma_extent((x0 + 1) as u32);
        },
        None => {
            gradients.lemma_extent(x0 as u32);
            gradients.lemma_extent((x0 + 1) as u32);
        },
    }
}

/// Law: one-dimensional gradient noise vanishes on the lattice. At a
/// coordinate that scales to an exact lattice point (zero fractional
/// offset), the corner gradient is dotted with a zero offset vector and the
/// value is exactly zero.
pub proof fn lemma_perlin1d_lattice_zero<G: GradientProvider<u32, i64>, P: InterpolationFunction>(
    n: &Perlin1d<G, P>,
    x: i64,
)
    requires
        n.wf(),
        n.valid_at(x),
        spec_offset(n.spec_cell(x as int)) == 0,
    ensures
        n.spec_value(x) == 0,
{
    let cell = n.spec_cell(x as int);
    let g0 = n.spec_gradients().spec_gradient(spec_corner(cell) as u32);
    let g1 = n.spec_gradients().spec_gradient((spec_corner(cell) + 1) as u32);
    let v1 = fxmul(g1 as int, -65536);
    assert(ONE == 65536);
    assert(fxmul(g0 as int, 0) == 0) by {
        vstd::arithmetic::mul::lemma_mul_basics(g0 as int);
    }
    n.spec_interp().lemma_interp_range(0);
    assert(fxlerp(0, v1, 0) == fxmul(v1, 0));
    assert(fxmul(v1, 0) == 0) by {
        vstd::arithmetic::mul::lemma_mul_basics(v1);
    }
}

/// Law: the one-dimensional evaluator's output is bounded. With unit-range
/// gradients, every corner influence lies within `[-ONE, ONE]`,
/// interpolation stays between its endpoints, and the normalization by `2`
/// bounds the value by `2 * ONE`.
pub proof fn lemma_perlin1d_value_bounded<G: GradientProvider<u32, i64>, P: InterpolationFunction>(
    n: &Perlin1d<G, P>,
    x: i64,
)
    requires
        n.wf(),
        n.valid_at(x),
    ensures
        -2 * ONE <= n.spec_value(x) <= 2 * ONE,
{
    assert(ONE == 65536);
    let cell = n.spec_cell(x as int);
    lemma_cell_bounds(x as int, n.spec_frequency() as int);
    vstd::arithmetic::div_mod::lemma_mod_bound(cell, 65536);
    lemma_corner_in_extent::<i64, G>(
        &n.spec_gradients(),
        n.spec_frequency() as int,
        cell,
        spec_corner(cell),
    );
    let rel = spec_offset(cell);
    let g0 = n.spec_gradients().spec_gradient(spec_corner(cell) as u32);
    let g1 = n.spec_gradients().spec_gradient((spec_corner(cell) + 1) as u32);
    n.spec_gradients().lemma_gradient_ok(spec_corner(cell) as u32);
    n.spec_gradients().lemma_gradient_ok((spec_corner(cell) + 1) as u32);
    lemma_fxmul_unit_abs(g0 as int, rel, ONE as int);
    lemma_fxmul_unit_abs(g1 as int, rel - ONE, ONE as int);
    n.spec_interp().lemma_interp_range(rel);
    lemma_fxlerp_minmax(fxmul(g0 as int, rel), fxmul(g1 as int, rel - ONE), n.spec_interp().spec_interp(rel));
}


/// The fixed-point dot product of a two-dimensional gradient with an offset
/// vector whose components lie within `[-ONE, ONE]`.
pub open spec fn spec_dot2(g: Point2, dx: int, dy: int) -> int {
    fxmul(g.x as int, dx) + fxmul(g.y as int, dy)
}

/// The fixed-point dot product of a three-dimensional gradient with an
/// offset vector whose components lie within `[-ONE, ONE]`.
pub open spec fn spec_dot3(g: Point3, dx: int, dy: int, dz: int) -> int {
    fxmul(g.x as int, dx) + fxmul(g.y as int, dy) + fxmul(g.z as int, dz)
}

/// Compute the two-dimensional corner influence: gradient dotted with the
/// corner-to-point offset.
pub(crate) fn dot2(g: Point2, dx: i64, dy: i64) -> (v: i64)
    requires
        g.gv_ok(),
        -ONE <= dx <= ONE,
        -ONE <= dy <= ONE,
    ensures
        v as int == spec_dot2(g, dx as int, dy as int),
        -2 * ONE <= v <= 2 * ONE,
{
    proof {
        lemma_fxmul_unit_abs(g.x as int, dx as int, ONE as int);
        lemma_fxmul_unit_abs(g.y as int, dy as int, ONE as int);
    }
    fx_mul(g.x, dx) + fx_mul(g.y, dy)
}

/// Compute the three-dimensional corner influence: gradient dotted with the
/// corner-to-point offset.
pub(crate) fn dot3(g: Point3, dx: i64, dy: i64, dz: i64) -> (v: i64)
    requires
        g.gv_ok(),
        -ONE <= dx <= ONE,
        -ONE <= dy <= ONE,
        -ONE <= dz <= ONE,
    ensures
        v as int == spec_dot3(g, dx as int, dy as int, dz as int),
        -3 * ONE <= v <= 3 * ONE,
{
    proof {
        lemma_fxmul_unit_abs(g.x as int, dx as int, ONE as int);
        lemma_fxmul_unit_abs(g.y as int, dy as int, ONE as int);
        lemma_fxmul_unit_abs(g.z as int, dz as int, ONE as int);
    }
    fx_mul(g.x, dx) + fx_mul(g.y, dy) + fx_mul(g.z, dz)
}

/// Rescaling an interpolated value by `sqrt(2)` keeps it within
/// `m * sqrt(2)`.
pub(crate) proof fn lemma_sqrt2_scale(raw: int, m: int)
    requires
        0 <= m <= 4,
        -m * ONE <= raw <= m * ONE,
    ensures
        -m * SQRT_2 <= fxmul(raw, SQRT_2 as int) <= m * SQRT_2,
        fits_i64(fxmul(raw, SQRT_2 as int)),
{
    assert(ONE == 65536 && SQRT_2 == 92682);
    assert(-(m * 92682) * 65536 <= raw * 92682 <= (m * 92682) * 65536) by (nonlinear_arith)
        requires
            -m * 65536 <= raw <= m * 65536,
            0 <= m,
    ;
    crate::fixed::lemma_scale_down_bound(raw * 92682, m * 92682);
}

/// Both corners of the cell holding lattice position `cell` lie below `d`
/// whenever the frequency does not exceed `d` cells.
proof fn lemma_corner_below(cell: int, freq: int, d: int)
    requires
        0 <= cell < freq,
        freq <= d * 65536,
    ensures
        cell / 65536 + 1 <= d,
{
    vstd::arithmetic::div_mod::lemma_multiply_divide_lt(cell, 65536, d);
    vstd::arithmetic::mul::lemma_mul_is_commutative(d, 65536);
}

/// The cell corner of a lattice position below `MAX_FREQUENCY` stays within
/// 32 bits.
proof fn lemma_corner_small(cell: int)
    requires
        0 <= cell < MAX_FREQUENCY,
    ensures
        0 <= cell / 65536 < 0x8000_0000,
{
    vstd::arithmetic::div_mod::lemma_div_pos_is_pos(cell, 65536);
    vstd::arithmetic::div_mod::lemma_multiply_divide_lt(cell, 65536, 0x8000_0000);
}

/// Two-dimensional gradient noise.
///
/// Evaluates over coordinates normalized to `[0, ONE)` per axis, scaled by a
/// per-axis frequency into a gradient lattice supplied by the provider `G`.
#[derive(Clone, Debug)]
pub struct Perlin2d<G, P> {
    frequency: Point2,
    gradients: G,
    interp: P,
}

/// Three-dimensional gradient noise.
///
/// Evaluates over coordinates normalized to `[0, ONE)` per axis, scaled by a
/// per-axis frequency into a gradient lattice supplied by the provider `G`.
#[derive(Clone, Debug)]
pub struct Perlin3d<G, P> {
    frequency: Point3,
    gradients: G,
    interp: P,
}


impl<G: GradientProvider<Lattice2, Point2>, P: InterpolationFunction> Perlin2d<G, P> {
    /// The gradient provider.
    pub closed spec fn spec_gradients(&self) -> G {
        self.gradients
    }

    /// The interpolation kernel.
    pub closed spec fn spec_interp(&self) -> P {
        self.interp
    }

    /// The requested frequency does not exceed a bounded provider's extent.
    pub open spec fn spec_frequency_fits(gradients: G, frequency: Point2) -> bool {
        match gradients.spec_max_dimensions() {
            Some(d) => frequency.x as int <= (d.x as int) * (ONE as int) && frequency.y as int <= (
            d.y as int) * (ONE as int),
            None => true,
        }
    }

    /// Replace the interpolation kernel, keeping frequency and gradients.
    pub fn with_interpolator<P2: InterpolationFunction>(self, interpolator: P2) -> (r: Perlin2d<
        G,
        P2,
    >)
        ensures
            r.spec_frequency() == self.spec_frequency(),
            r.spec_gradients() == self.spec_gradients(),
            r.spec_interp() == interpolator,
    {
        Perlin2d { frequency: self.frequency, gradients: self.gradients, interp: interpolator }
    }

    /// Exchange the frequency, keeping gradients and kernel; the new
    /// frequency must not exceed a bounded provider's extent.
    pub fn with_frequency(self, frequency: Point2) -> (result: Result<Perlin2d<G, P>, NoiseError>)
        requires
            0 < frequency.x <= MAX_FREQUENCY,
            0 < frequency.y <= MAX_FREQUENCY,
            self.wf(),
        ensures
            match result {
                Ok(r) => {
                    &&& r.wf()
                    &&& r.spec_frequency() == frequency
                    &&& r.spec_gradients() == self.spec_gradients()
                    &&& r.spec_interp() == self.spec_interp()
                },
                Err(e) => {
                    &&& e == NoiseError::FrequencyTooLarge
                    &&& !Self::spec_frequency_fits(self.spec_gradients(), frequency)
                },
            },
    {
        proof {
            assert(ONE == 65536);
        }
        match self.gradients.max_dimensions() {
            Some(d) => {
                if frequency.x > (d.x as i64) * ONE || frequency.y > (d.y as i64) * ONE {
                    return Err(NoiseError::FrequencyTooLarge);
                }
            },
            None => {},
        }
        Ok(Perlin2d { frequency, gradients: self.gradients, interp: self.interp })
    }
}

impl<G: GradientProvider<Lattice2, Point2>> Perlin2d<G, Hermite5thOrderInterpolator> {
    /// Gradient noise over the given provider with the default (5th-order
    /// Hermite) kernel. The frequency must not exceed a bounded provider's
    /// extent: exceeding it would read out-of-range lattice gradients.
    pub fn new(frequency: Point2, gradients: G) -> (result: Result<
        Perlin2d<G, Hermite5thOrderInterpolator>,
        NoiseError,
    >)
        requires
            0 < frequency.x <= MAX_FREQUENCY,
            0 < frequency.y <= MAX_FREQUENCY,
            gradients.wf(),
        ensures
            match result {
                Ok(r) => {
                    &&& r.wf()
                    &&& r.spec_frequency() == frequency
                    &&& r.spec_gradients() == gradients
                    &&& Self::spec_frequency_fits(gradients, frequency)
                },
                Err(e) => {
                    &&& e == NoiseError::FrequencyTooLarge
                    &&& !Self::spec_frequency_fits(gradients, frequency)
                },
            },
    {
        proof {
            assert(ONE == 65536);
        }
        match gradients.max_dimensions() {
            Some(d) => {
                if frequency.x > (d.x as i64) * ONE || frequency.y > (d.y as i64) * ONE {
                    return Err(NoiseError::FrequencyTooLarge);
                }
            },
            None => {},
        }
        Ok(Perlin2d { frequency, gradients, interp: Hermite5thOrderInterpolator::new() })
    }
}

impl<G: GradientProvider<Lattice2, Point2>, P: InterpolationFunction> Noise<Point2> for Perlin2d<
    G,
    P,
> {
    open spec fn wf(&self) -> bool {
        &&& self.spec_gradients().wf()
        &&& 0 < self.spec_frequency().x <= MAX_FREQUENCY
        &&& 0 < self.spec_frequency().y <= MAX_FREQUENCY
        &&& Self::spec_frequency_fits(self.spec_gradients(), self.spec_frequency())
    }

    open spec fn valid_at(&self, p: Point2) -> bool {
        0 <= p.x < ONE && 0 <= p.y < ONE
    }

    open spec fn spec_value(&self, p: Point2) -> int {
        let cx = fxmul(p.x as int, self.spec_frequency().x as int);
        let cy = fxmul(p.y as int, self.spec_frequency().y as int);
        let x0 = spec_corner(cx);
        let y0 = spec_corner(cy);
        let rx = spec_offset(cx);
        let ry = spec_offset(cy);
        let g = self.spec_gradients();
        let v00 = spec_dot2(g.spec_gradient(Lattice2 { x: x0 as u32, y: y0 as u32 }), rx, ry);
        let v10 = spec_dot2(
            g.spec_gradient(Lattice2 { x: (x0 + 1) as u32, y: y0 as u32 }),
            rx - ONE,
            ry,
        );
        let v01 = spec_dot2(
            g.spec_gradient(Lattice2 { x: x0 as u32, y: (y0 + 1) as u32 }),
            rx,
            ry - ONE,
        );
        let v11 = spec_dot2(
            g.spec_gradient(Lattice2 { x: (x0 + 1) as u32, y: (y0 + 1) as u32 }),
            rx - ONE,
            ry - ONE,
        );
        let tx = self.spec_interp().spec_interp(rx);
        let ty = self.spec_interp().spec_interp(ry);
        fxmul(fxlerp(fxlerp(v00, v10, tx), fxlerp(v01, v11, tx), ty), SQRT_2 as int)
    }

    open spec fn frequency_defined(&self) -> bool {
        true
    }

    closed spec fn spec_frequency(&self) -> Point2 {
        self.frequency
    }

    fn value_at(&self, p: Point2) -> (v: i64) {
        proof {
            assert(ONE == 65536);
            lemma_cell_bounds(p.x as int, self.spec_frequency().x as int);
            lemma_cell_bounds(p.y as int, self.spec_frequency().y as int);
        }
        let cx: i64 = fx_mul(p.x, self.frequency.x);
        let cy: i64 = fx_mul(p.y, self.frequency.y);
        let x0: i64 = cx / 65536;
        let y0: i64 = cy / 65536;
        let rx: i64 = cx % 65536;
        let ry: i64 = cy % 65536;
        proof {
            vstd::arithmetic::div_mod::lemma_mod_bound(cx as int, 65536);
            vstd::arithmetic::div_mod::lemma_mod_bound(cy as int, 65536);
            lemma_corner_small(cx as int);
            lemma_corner_small(cy as int);
            match self.spec_gradients().spec_max_dimensions() {
                Some(d) => {
                    lemma_corner_below(cx as int, self.spec_frequency().x as int, d.x as int);
                    lemma_corner_below(cy as int, self.spec_frequency().y as int, d.y as int);
                },
                None => {},
            }
        }
        let c00 = Lattice2 { x: x0 as u32, y: y0 as u32 };
        let c10 = Lattice2 { x: (x0 as u32) + 1, y: y0 as u32 };
        let c01 = Lattice2 { x: x0 as u32, y: (y0 as u32) + 1 };
        let c11 = Lattice2 { x: (x0 as u32) + 1, y: (y0 as u32) + 1 };
        proof {
            self.gradients.lemma_extent(c00);
            self.gradients.lemma_extent(c10);
            self.gradients.lemma_extent(c01);
            self.gradients.lemma_extent(c11);
            self.gradients.lemma_gradient_ok(c00);
            self.gradients.lemma_gradient_ok(c10);
            self.gradients.lemma_gradient_ok(c01);
            self.gradients.lemma_gradient_ok(c11);
        }
        let g00 = self.gradients.get_gradient(c00);
        let g10 = self.gradients.get_gradient(c10);
        let g01 = self.gradients.get_gradient(c01);
        let g11 = self.gradients.get_gradient(c11);
        let v00 = dot2(g00, rx, ry);
        let v10 = dot2(g10, rx - ONE, ry);
        let v01 = dot2(g01, rx, ry - ONE);
        let v11 = dot2(g11, rx - ONE, ry - ONE);
        let tx: i64 = self.interp.interpolation_value(rx);
        let ty: i64 = self.interp.interpolation_value(ry);
        proof {
            self.interp.lemma_interp_range(rx as int);
            self.interp.lemma_interp_range(ry as int);
            lemma_fxlerp_minmax(v00 as int, v10 as int, tx as int);
            lemma_fxlerp_minmax(v01 as int, v11 as int, tx as int);
        }
        let p1: i64 = fx_lerp(v00, v10, tx);
        let p2: i64 = fx_lerp(v01, v11, tx);
        proof {
            lemma_fxlerp_minmax(p1 as int, p2 as int, ty as int);
        }
        let raw: i64 = fx_lerp(p1, p2, ty);
        proof {
            lemma_sqrt2_scale(raw as int, 2);
        }
        fx_mul(raw, SQRT_2)
    }

    fn frequency(&self) -> (f: Point2) {
        self.frequency
    }
}

/// Law: two-dimensional gradient noise vanishes on the lattice. At a point
/// whose coordinates both scale to exact lattice positions, every corner
/// influence that interpolation weighs is a dot product with a zero offset,
/// and the value is exactly zero.
pub proof fn lemma_perlin2d_lattice_zero<
    G: GradientProvider<Lattice2, Point2>,
    P: InterpolationFunction,
>(n: &Perlin2d<G, P>, p: Point2)
    requires
        n.wf(),
        n.valid_at(p),
        spec_offset(fxmul(p.x as int, n.spec_frequency().x as int)) == 0,
        spec_offset(fxmul(p.y as int, n.spec_frequency().y as int)) == 0,
    ensures
        n.spec_value(p) == 0,
{
    assert(ONE == 65536);
    let cx = fxmul(p.x as int, n.spec_frequency().x as int);
    let cy = fxmul(p.y as int, n.spec_frequency().y as int);
    let x0 = spec_corner(cx);
    let y0 = spec_corner(cy);
    let g = n.spec_gradients();
    let g00 = g.spec_gradient(Lattice2 { x: x0 as u32, y: y0 as u32 });
    let g10 = g.spec_gradient(Lattice2 { x: (x0 + 1) as u32, y: y0 as u32 });
    let g01 = g.spec_gradient(Lattice2 { x: x0 as u32, y: (y0 + 1) as u32 });
    let v00 = spec_dot2(g00, 0, 0);
    let v10 = spec_dot2(g10, -65536, 0);
    let v01 = spec_dot2(g01, 0, -65536);
    n.spec_interp().lemma_interp_range(0);
    lemma_fxmul_zero(g00.x as int);
    lemma_fxmul_zero(g00.y as int);
    lemma_fxmul_zero(g10.y as int);
    lemma_fxmul_zero(g01.x as int);
    assert(v00 == 0);
    let t0 = n.spec_interp().spec_interp(0);
    assert(t0 == 0);
    let l1 = fxlerp(v00, v10, 0);
    lemma_fxmul_zero(v10 - v00);
    assert(l1 == 0);
    let v11 = spec_dot2(
        g.spec_gradient(Lattice2 { x: (x0 + 1) as u32, y: (y0 + 1) as u32 }),
        -65536,
        -65536,
    );
    let l2 = fxlerp(v01, v11, 0);
    lemma_fxmul_zero(v11 - v01);
    let raw = fxlerp(l1, l2, 0);
    lemma_fxmul_zero(l2 - l1);
    assert(raw == 0);
    lemma_fxmul_zero(92682);
    assert(fxmul(0, SQRT_2 as int) == 0) by {
        vstd::arithmetic::mul::lemma_mul_basics(SQRT_2 as int);
    }
}

/// A fixed-point product with zero is zero.
proof fn lemma_fxmul_zero(a: int)
    ensures
        fxmul(a, 0) == 0,
{
    vstd::arithmetic::mul::lemma_mul_basics(a);
}

/// Law: the two-dimensional evaluator's output is bounded. Every corner
/// influence lies within `[-2 * ONE, 2 * ONE]`, interpolation stays between
/// its endpoints, and the normalization by `sqrt(2)` bounds the value by
/// `2 * SQRT_2`.
pub proof fn lemma_perlin2d_value_bounded<
    G: GradientProvider<Lattice2, Point2>,
    P: InterpolationFunction,
>(n: &Perlin2d<G, P>, p: Point2)
    requires
        n.wf(),
        n.valid_at(p),
    ensures
        -2 * SQRT_2 <= n.spec_value(p) <= 2 * SQRT_2,
{
    assert(ONE == 65536);
    let cx = fxmul(p.x as int, n.spec_frequency().x as int);
    let cy = fxmul(p.y as int, n.spec_frequency().y as int);
    lemma_cell_bounds(p.x as int, n.spec_frequency().x as int);
    lemma_cell_bounds(p.y as int, n.spec_frequency().y as int);
    vstd::arithmetic::div_mod::lemma_mod_bound(cx, 65536);
    vstd::arithmetic::div_mod::lemma_mod_bound(cy, 65536);
    lemma_corner_small(cx);
    lemma_corner_small(cy);
    let x0 = spec_corner(cx);
    let y0 = spec_corner(cy);
    let rx = spec_offset(cx);
    let ry = spec_offset(cy);
    let g = n.spec_gradients();
    match g.spec_max_dimensions() {
        Some(d) => {
            lemma_corner_below(cx, n.spec_frequency().x as int, d.x as int);
            lemma_corner_below(cy, n.spec_frequency().y as int, d.y as int);
        },
        None => {},
    }
    let c00 = Lattice2 { x: x0 as u32, y: y0 as u32 };
    let c10 = Lattice2 { x: (x0 + 1) as u32, y: y0 as u32 };
    let c01 = Lattice2 { x: x0 as u32, y: (y0 + 1) as u32 };
    let c11 = Lattice2 { x: (x0 + 1) as u32, y: (y0 + 1) as u32 };
    g.lemma_extent(c00);
    g.lemma_extent(c10);
    g.lemma_extent(c01);
    g.lemma_extent(c11);
    g.lemma_gradient_ok(c00);
    g.lemma_gradient_ok(c10);
    g.lemma_gradient_ok(c01);
    g.lemma_gradient_ok(c11);
    lemma_dot2_bounded(g.spec_gradient(c00), rx, ry);
    lemma_dot2_bounded(g.spec_gradient(c10), rx - ONE, ry);
    lemma_dot2_bounded(g.spec_gradient(c01), rx, ry - ONE);
    lemma_dot2_bounded(g.spec_gradient(c11), rx - ONE, ry - ONE);
    let v00 = spec_dot2(g.spec_gradient(c00), rx, ry);
    let v10 = spec_dot2(g.spec_gradient(c10), rx - ONE, ry);
    let v01 = spec_dot2(g.spec_gradient(c01), rx, ry - ONE);
    let v11 = spec_dot2(g.spec_gradient(c11), rx - ONE, ry - ONE);
    let tx = n.spec_interp().spec_interp(rx);
    let ty = n.spec_interp().spec_interp(ry);
    n.spec_interp().lemma_interp_range(rx);
    n.spec_interp().lemma_interp_range(ry);
    lemma_fxlerp_minmax(v00, v10, tx);
    lemma_fxlerp_minmax(v01, v11, tx);
    lemma_fxlerp_minmax(fxlerp(v00, v10, tx), fxlerp(v01, v11, tx), ty);
    lemma_sqrt2_scale(fxlerp(fxlerp(v00, v10, tx), fxlerp(v01, v11, tx), ty), 2);
}

/// A corner influence with a unit-range gradient and unit-range offsets is
/// bounded by `2 * ONE`.
proof fn lemma_dot2_bounded(g: Point2, dx: int, dy: int)
    requires
        g.gv_ok(),
        -ONE <= dx <= ONE,
        -ONE <= dy <= ONE,
    ensures
        -2 * ONE <= spec_dot2(g, dx, dy) <= 2 * ONE,
{
    lemma_fxmul_unit_abs(g.x as int, dx, ONE as int);
    lemma_fxmul_unit_abs(g.y as int, dy, ONE as int);
}


impl<G: GradientProvider<Lattice3, Point3>, P: InterpolationFunction> Perlin3d<G, P> {
    /// The gradient provider.
    pub closed spec fn spec_gradients(&self) -> G {
        self.gradients
    }

    /// The interpolation kernel.
    pub closed spec fn spec_interp(&self) -> P {
        self.interp
    }

    /// The requested frequency does not exceed a bounded provider's extent.
    pub open spec fn spec_frequency_fits(gradients: G, frequency: Point3) -> bool {
        match gradients.spec_max_dimensions() {
            Some(d) => frequency.x as int <= (d.x as int) * (ONE as int) && frequency.y as int <= (
            d.y as int) * (ONE as int) && frequency.z as int <= (d.z as int) * (ONE as int),
            None => true,
        }
    }

    /// Replace the interpolation kernel, keeping frequency and gradients.
    pub fn with_interpolator<P2: InterpolationFunction>(self, interpolator: P2) -> (r: Perlin3d<
        G,
        P2,
    >)
        ensures
            r.spec_frequency() == self.spec_frequency(),
            r.spec_gradients() == self.spec_gradients(),
            r.spec_interp() == interpolator,
    {
        Perlin3d { frequency: self.frequency, gradients: self.gradients, interp: interpolator }
    }

    /// Exchange the frequency, keeping gradients and kernel; the new
    /// frequency must not exceed a bounded provider's extent.
    pub fn with_frequency(self, frequency: Point3) -> (result: Result<Perlin3d<G, P>, NoiseError>)
        requires
            0 < frequency.x <= MAX_FREQUENCY,
            0 < frequency.y <= MAX_FREQUENCY,
            0 < frequency.z <= MAX_FREQUENCY,
            self.wf(),
        ensures
            match result {
                Ok(r) => {
                    &&& r.wf()
                    &&& r.spec_frequency() == frequency
                    &&& r.spec_gradients() == self.spec_gradients()
                    &&& r.spec_interp() == self.spec_interp()
                },
                Err(e) => {
                    &&& e == NoiseError::FrequencyTooLarge
                    &&& !Self::spec_frequency_fits(self.spec_gradients(), frequency)
                },
            },
    {
        proof {
            assert(ONE == 65536);
        }
        match self.gradients.max_dimensions() {
            Some(d) => {
                if frequency.x > (d.x as i64) * ONE || frequency.y > (d.y as i64) * ONE
                    || frequency.z > (d.z as i64) * ONE {
                    return Err(NoiseError::FrequencyTooLarge);
                }
            },
            None => {},
        }
        Ok(Perlin3d { frequency, gradients: self.gradients, interp: self.interp })
    }
}

impl<G: GradientProvider<Lattice3, Point3>> Perlin3d<G, Hermite5thOrderInterpolator> {
    /// Gradient noise over the given provider with the default (5th-order
    /// Hermite) kernel. The frequency must not exceed a bounded provider's
    /// extent: exceeding it would read out-of-range lattice gradients.
    pub fn new(frequency: Point3, gradients: G) -> (result: Result<
        Perlin3d<G, Hermite5thOrderInterpolator>,
        NoiseError,
    >)
        requires
            0 < frequency.x <= MAX_FREQUENCY,
            0 < frequency.y <= MAX_FREQUENCY,
            0 < frequency.z <= MAX_FREQUENCY,
            gradients.wf(),
        ensures
            match result {
                Ok(r) => {
                    &&& r.wf()
                    &&& r.spec_frequency() == frequency
                    &&& r.spec_gradients() == gradients
                    &&& Self::spec_frequency_fits(gradients, frequency)
                },
                Err(e) => {
                    &&& e == NoiseError::FrequencyTooLarge
                    &&& !Self::spec_frequency_fits(gradients, frequency)
                },
            },
    {
        proof {
            assert(ONE == 65536);
        }
        match gradients.max_dimensions() {
            Some(d) => {
                if frequency.x > (d.x as i64) * ONE || frequency.y > (d.y as i64) * ONE
                    || frequency.z > (d.z as i64) * ONE {
                    return Err(NoiseError::FrequencyTooLarge);
                }
            },
            None => {},
        }
        Ok(Perlin3d { frequency, gradients, interp: Hermite5thOrderInterpolator::new() })
    }
}

impl<G: GradientProvider<Lattice3, Point3>, P: InterpolationFunction> Noise<Point3> for Perlin3d<
    G,
    P,
> {
    open spec fn wf(&self) -> bool {
        &&& self.spec_gradients().wf()
        &&& 0 < self.spec_frequency().x <= MAX_FREQUENCY
        &&& 0 < self.spec_frequency().y <= MAX_FREQUENCY
        &&& 0 < self.spec_frequency().z <= MAX_FREQUENCY
        &&& Self::spec_frequency_fits(self.spec_gradients(), self.spec_frequency())
    }

    open spec fn valid_at(&self, p: Point3) -> bool {
        0 <= p.x < ONE && 0 <= p.y < ONE && 0 <= p.z < ONE
    }

    open spec fn spec_value(&self, p: Point3) -> int {
        let cx = fxmul(p.x as int, self.spec_frequency().x as int);
        let cy = fxmul(p.y as int, self.spec_frequency().y as int);
        let cz = fxmul(p.z as int, self.spec_frequency().z as int);
        let x0 = spec_corner(cx);
        let y0 = spec_corner(cy);
        let z0 = spec_corner(cz);
        let rx = spec_offset(cx);
        let ry = spec_offset(cy);
        let rz = spec_offset(cz);
        let g = self.spec_gradients();
        let v000 = spec_dot3(
            g.spec_gradient(Lattice3 { x: x0 as u32, y: y0 as u32, z: z0 as u32 }),
            rx,
            ry,
            rz,
        );
        let v100 = spec_dot3(
            g.spec_gradient(Lattice3 { x: (x0 + 1) as u32, y: y0 as u32, z: z0 as u32 }),
            rx - ONE,
            ry,
            rz,
        );
        let v010 = spec_dot3(
            g.spec_gradient(Lattice3 { x: x0 as u32, y: (y0 + 1) as u32, z: z0 as u32 }),
            rx,
            ry - ONE,
            rz,
        );
        let v110 = spec_dot3(
            g.spec_gradient(Lattice3 { x: (x0 + 1) as u32, y: (y0 + 1) as u32, z: z0 as u32 }),
            rx - ONE,
            ry - ONE,
            rz,
        );
        let v001 = spec_dot3(
            g.spec_gradient(Lattice3 { x: x0 as u32, y: y0 as u32, z: (z0 + 1) as u32 }),
            rx,
            ry,
            rz - ONE,
        );
        let v101 = spec_dot3(
            g.spec_gradient(Lattice3 { x: (x0 + 1) as u32, y: y0 as u32, z: (z0 + 1) as u32 }),
            rx - ONE,
            ry,
            rz - ONE,
        );
        let v011 = spec_dot3(
            g.spec_gradient(Lattice3 { x: x0 as u32, y: (y0 + 1) as u32, z: (z0 + 1) as u32 }),
            rx,
            ry - ONE,
            rz - ONE,
        );
        let v111 = spec_dot3(
            g.spec_gradient(
                Lattice3 { x: (x0 + 1) as u32, y: (y0 + 1) as u32, z: (z0 + 1) as u32 },
            ),
            rx - ONE,
            ry - ONE,
            rz - ONE,
        );
        let tx = self.spec_interp().spec_interp(rx);
        let ty = self.spec_interp().spec_interp(ry);
        let tz = self.spec_interp().spec_interp(rz);
        let front = fxlerp(fxlerp(v000, v100, tx), fxlerp(v010, v110, tx), ty);
        let back = fxlerp(fxlerp(v001, v101, tx), fxlerp(v011, v111, tx), ty);
        fxmul(fxlerp(front, back, tz), SQRT_2 as int)
    }

    open spec fn frequency_defined(&self) -> bool {
        true
    }

    closed spec fn spec_frequency(&self) -> Point3 {
        self.frequency
    }

    fn value_at(&self, p: Point3) -> (v: i64) {
        proof {
            assert(ONE == 65536);
            lemma_cell_bounds(p.x as int, self.spec_frequency().x as int);
            lemma_cell_bounds(p.y as int, self.spec_frequency().y as int);
            lemma_cell_bounds(p.z as int, self.spec_frequency().z as int);
        }
        let cx: i64 = fx_mul(p.x, self.frequency.x);
        let cy: i64 = fx_mul(p.y, self.frequency.y);
        let cz: i64 = fx_mul(p.z, self.frequency.z);
        let x0: i64 = cx / 65536;
        let y0: i64 = cy / 65536;
        let z0: i64 = cz / 65536;
        let rx: i64 = cx % 65536;
        let ry: i64 = cy % 65536;
        let rz: i64 = cz % 65536;
        proof {
            vstd::arithmetic::div_mod::lemma_mod_bound(cx as int, 65536);
            vstd::arithmetic::div_mod::lemma_mod_bound(cy as int, 65536);
            vstd::arithmetic::div_mod::lemma_mod_bound(cz as int, 65536);
            lemma_corner_small(cx as int);
            lemma_corner_small(cy as int);
            lemma_corner_small(cz as int);
            match self.spec_gradients().spec_max_dimensions() {
                Some(d) => {
                    lemma_corner_below(cx as int, self.spec_frequency().x as int, d.x as int);
                    lemma_corner_below(cy as int, self.spec_frequency().y as int, d.y as int);
                    lemma_corner_below(cz as int, self.spec_frequency().z as int, d.z as int);
                },
                None => {},
            }
        }
        let x0u: u32 = x0 as u32;
        let y0u: u32 = y0 as u32;
        let z0u: u32 = z0 as u32;
        let c000 = Lattice3 { x: x0u, y: y0u, z: z0u };
        let c100 = Lattice3 { x: x0u + 1, y: y0u, z: z0u };
        let c010 = Lattice3 { x: x0u, y: y0u + 1, z: z0u };
        let c110 = Lattice3 { x: x0u + 1, y: y0u + 1, z: z0u };
        let c001 = Lattice3 { x: x0u, y: y0u, z: z0u + 1 };
        let c101 = Lattice3 { x: x0u + 1, y: y0u, z: z0u + 1 };
        let c011 = Lattice3 { x: x0u, y: y0u + 1, z: z0u + 1 };
        let c111 = Lattice3 { x: x0u + 1, y: y0u + 1, z: z0u + 1 };
        proof {
            self.gradients.lemma_extent(c000);
            self.gradients.lemma_extent(c100);
            self.gradients.lemma_extent(c010);
            self.gradients.lemma_extent(c110);
            self.gradients.lemma_extent(c001);
            self.gradients.lemma_extent(c101);
            self.gradients.lemma_extent(c011);
            self.gradients.lemma_extent(c111);
            self.gradients.lemma_gradient_ok(c000);
            self.gradients.lemma_gradient_ok(c100);
            self.gradients.lemma_gradient_ok(c010);
            self.gradients.lemma_gradient_ok(c110);
            self.gradients.lemma_gradient_ok(c001);
            self.gradients.lemma_gradient_ok(c101);
            self.gradients.lemma_gradient_ok(c011);
            self.gradients.lemma_gradient_ok(c111);
        }
        let v000 = dot3(self.gradients.get_gradient(c000), rx, ry, rz);
        let v100 = dot3(self.gradients.get_gradient(c100), rx - ONE, ry, rz);
        let v010 = dot3(self.gradients.get_gradient(c010), rx, ry - ONE, rz);
        let v110 = dot3(self.gradients.get_gradient(c110), rx - ONE, ry - ONE, rz);
        let v001 = dot3(self.gradients.get_gradient(c001), rx, ry, rz - ONE);
        let v101 = dot3(self.gradients.get_gradient(c101), rx - ONE, ry, rz - ONE);
        let v011 = dot3(self.gradients.get_gradient(c011), rx, ry - ONE, rz - ONE);
        let v111 = dot3(self.gradients.get_gradient(c111), rx - ONE, ry - ONE, rz - ONE);
        let tx: i64 = self.interp.interpolation_value(rx);
        let ty: i64 = self.interp.interpolation_value(ry);
        let tz: i64 = self.interp.interpolation_value(rz);
        proof {
            self.interp.lemma_interp_range(rx as int);
            self.interp.lemma_interp_range(ry as int);
            self.interp.lemma_interp_range(rz as int);
            lemma_fxlerp_minmax(v000 as int, v100 as int, tx as int);
            lemma_fxlerp_minmax(v010 as int, v110 as int, tx as int);
            lemma_fxlerp_minmax(v001 as int, v101 as int, tx as int);
            lemma_fxlerp_minmax(v011 as int, v111 as int, tx as int);
        }
        let p1: i64 = fx_lerp(v000, v100, tx);
        let p2: i64 = fx_lerp(v010, v110, tx);
        let p3: i64 = fx_lerp(v001, v101, tx);
        let p4: i64 = fx_lerp(v011, v111, tx);
        proof {
            lemma_fxlerp_minmax(p1 as int, p2 as int, ty as int);
            lemma_fxlerp_minmax(p3 as int, p4 as int, ty as int);
        }
        let front: i64 = fx_lerp(p1, p2, ty);
        let back: i64 = fx_lerp(p3, p4, ty);
        proof {
            lemma_fxlerp_minmax(front as int, back as int, tz as int);
        }
        let raw: i64 = fx_lerp(front, back, tz);
        proof {
            lemma_sqrt2_scale(raw as int, 3);
        }
        fx_mul(raw, SQRT_2)
    }

    fn frequency(&self) -> (f: Point3) {
        self.frequency
    }
}


/// Law: three-dimensional gradient noise vanishes on the lattice. At a point
/// whose coordinates all scale to exact lattice positions, every corner
/// influence that interpolation weighs is a dot product with a zero offset,
/// and the value is exactly zero.
pub proof fn lemma_perlin3d_lattice_zero<
    G: GradientProvider<Lattice3, Point3>,
    P: InterpolationFunction,
>(n: &Perlin3d<G, P>, p: Point3)
    requires
        n.wf(),
        n.valid_at(p),
        spec_offset(fxmul(p.x as int, n.spec_frequency().x as int)) == 0,
        spec_offset(fxmul(p.y as int, n.spec_frequency().y as int)) == 0,
        spec_offset(fxmul(p.z as int, n.spec_frequency().z as int)) == 0,
    ensures
        n.spec_value(p) == 0,
{
    assert(ONE == 65536);
    let cx = fxmul(p.x as int, n.spec_frequency().x as int);
    let cy = fxmul(p.y as int, n.spec_frequency().y as int);
    let cz = fxmul(p.z as int, n.spec_frequency().z as int);
    let x0 = spec_corner(cx);
    let y0 = spec_corner(cy);
    let z0 = spec_corner(cz);
    let g = n.spec_gradients();
    let g000 = g.spec_gradient(Lattice3 { x: x0 as u32, y: y0 as u32, z: z0 as u32 });
    let v000 = spec_dot3(g000, 0, 0, 0);
    lemma_fxmul_zero(g000.x as int);
    lemma_fxmul_zero(g000.y as int);
    lemma_fxmul_zero(g000.z as int);
    assert(v000 == 0);
    n.spec_interp().lemma_interp_range(0);
    let v100 = spec_dot3(
        g.spec_gradient(Lattice3 { x: (x0 + 1) as u32, y: y0 as u32, z: z0 as u32 }),
        -65536,
        0,
        0,
    );
    let l1 = fxlerp(v000, v100, 0);
    lemma_fxmul_zero(v100 - v000);
    assert(l1 == 0);
    let v010 = spec_dot3(
        g.spec_gradient(Lattice3 { x: x0 as u32, y: (y0 + 1) as u32, z: z0 as u32 }),
        0,
        -65536,
        0,
    );
    let v110 = spec_dot3(
        g.spec_gradient(Lattice3 { x: (x0 + 1) as u32, y: (y0 + 1) as u32, z: z0 as u32 }),
        -65536,
        -65536,
        0,
    );
    let l2 = fxlerp(v010, v110, 0);
    lemma_fxmul_zero(v110 - v010);
    let front = fxlerp(l1, l2, 0);
    lemma_fxmul_zero(l2 - l1);
    assert(front == 0);
    let v001 = spec_dot3(
        g.spec_gradient(Lattice3 { x: x0 as u32, y: y0 as u32, z: (z0 + 1) as u32 }),
        0,
        0,
        -65536,
    );
    let v101 = spec_dot3(
        g.spec_gradient(Lattice3 { x: (x0 + 1) as u32, y: y0 as u32, z: (z0 + 1) as u32 }),
        -65536,
        0,
        -65536,
    );
    let v011 = spec_dot3(
        g.spec_gradient(Lattice3 { x: x0 as u32, y: (y0 + 1) as u32, z: (z0 + 1) as u32 }),
        0,
        -65536,
        -65536,
    );
    let v111 = spec_dot3(
        g.spec_gradient(
            Lattice3 { x: (x0 + 1) as u32, y: (y0 + 1) as u32, z: (z0 + 1) as u32 },
        ),
        -65536,
        -65536,
        -65536,
    );
    let l3 = fxlerp(v001, v101, 0);
    lemma_fxmul_zero(v101 - v001);
    let l4 = fxlerp(v011, v111, 0);
    lemma_fxmul_zero(v111 - v011);
    let back = fxlerp(l3, l4, 0);
    lemma_fxmul_zero(l4 - l3);
    let raw = fxlerp(front, back, 0);
    lemma_fxmul_zero(back - front);
    assert(raw == 0);
    assert(fxmul(0, SQRT_2 as int) == 0) by {
        vstd::arithmetic::mul::lemma_mul_basics(SQRT_2 as int);
    }
}

/// Law: the three-dimensional evaluator's output is bounded. Every corner
/// influence lies within `[-3 * ONE, 3 * ONE]`, interpolation stays between
/// its endpoints, and the normalization by `sqrt(2)` bounds the value by
/// `3 * SQRT_2`.
pub proof fn lemma_perlin3d_value_bounded<
    G: GradientProvider<Lattice3, Point3>,
    P: InterpolationFunction,
>(n: &Perlin3d<G, P>, p: Point3)
    requires
        n.wf(),
        n.valid_at(p),
    ensures
        -3 * SQRT_2 <= n.spec_value(p) <= 3 * SQRT_2,
{
    assert(ONE == 65536);
    let fx = n.spec_frequency().x as int;
    let fy = n.spec_frequency().y as int;
    let fz = n.spec_frequency().z as int;
    let cx = fxmul(p.x as int, fx);
    let cy = fxmul(p.y as int, fy);
    let cz = fxmul(p.z as int, fz);
    lemma_cell_bounds(p.x as int, fx);
    lemma_cell_bounds(p.y as int, fy);
    lemma_cell_bounds(p.z as int, fz);
    vstd::arithmetic::div_mod::lemma_mod_bound(cx, 65536);
    vstd::arithmetic::div_mod::lemma_mod_bound(cy, 65536);
    vstd::arithmetic::div_mod::lemma_mod_bound(cz, 65536);
    lemma_corner_small(cx);
    lemma_corner_small(cy);
    lemma_corner_small(cz);
    let x0 = spec_corner(cx);
    let y0 = spec_corner(cy);
    let z0 = spec_corner(cz);
    let rx = spec_offset(cx);
    let ry = spec_offset(cy);
    let rz = spec_offset(cz);
    let g = n.spec_gradients();
    match g.spec_max_dimensions() {
        Some(d) => {
            lemma_corner_below(cx, fx, d.x as int);
            lemma_corner_below(cy, fy, d.y as int);
            lemma_corner_below(cz, fz, d.z as int);
        },
        None => {},
    }
    let c000 = Lattice3 { x: x0 as u32, y: y0 as u32, z: z0 as u32 };
    let c100 = Lattice3 { x: (x0 + 1) as u32, y: y0 as u32, z: z0 as u32 };
    let c010 = Lattice3 { x: x0 as u32, y: (y0 + 1) as u32, z: z0 as u32 };
    let c110 = Lattice3 { x: (x0 + 1) as u32, y: (y0 + 1) as u32, z: z0 as u32 };
    let c001 = Lattice3 { x: x0 as u32, y: y0 as u32, z: (z0 + 1) as u32 };
    let c101 = Lattice3 { x: (x0 + 1) as u32, y: y0 as u32, z: (z0 + 1) as u32 };
    let c011 = Lattice3 { x: x0 as u32, y: (y0 + 1) as u32, z: (z0 + 1) as u32 };
    let c111 = Lattice3 { x: (x0 + 1) as u32, y: (y0 + 1) as u32, z: (z0 + 1) as u32 };
    g.lemma_extent(c000);
    g.lemma_extent(c100);
    g.lemma_extent(c010);
    g.lemma_extent(c110);
    g.lemma_extent(c001);
    g.lemma_extent(c101);
    g.lemma_extent(c011);
    g.lemma_extent(c111);
    g.lemma_gradient_ok(c000);
    g.lemma_gradient_ok(c100);
    g.lemma_gradient_ok(c010);
    g.lemma_gradient_ok(c110);
    g.lemma_gradient_ok(c001);
    g.lemma_gradient_ok(c101);
    g.lemma_gradient_ok(c011);
    g.lemma_gradient_ok(c111);
    lemma_dot3_bounded(g.spec_gradient(c000), rx, ry, rz);
    lemma_dot3_bounded(g.spec_gradient(c100), rx - ONE, ry, rz);
    lemma_dot3_bounded(g.spec_gradient(c010), rx, ry - ONE, rz);
    lemma_dot3_bounded(g.spec_gradient(c110), rx - ONE, ry - ONE, rz);
    lemma_dot3_bounded(g.spec_gradient(c001), rx, ry, rz - ONE);
    lemma_dot3_bounded(g.spec_gradient(c101), rx - ONE, ry, rz - ONE);
    lemma_dot3_bounded(g.spec_gradient(c011), rx, ry - ONE, rz - ONE);
    lemma_dot3_bounded(g.spec_gradient(c111), rx - ONE, ry - ONE, rz - ONE);
    let v000 = spec_dot3(g.spec_gradient(c000), rx, ry, rz);
    let v100 = spec_dot3(g.spec_gradient(c100), rx - ONE, ry, rz);
    let v010 = spec_dot3(g.spec_gradient(c010), rx, ry - ONE, rz);
    let v110 = spec_dot3(g.spec_gradient(c110), rx - ONE, ry - ONE, rz);
    let v001 = spec_dot3(g.spec_gradient(c001), rx, ry, rz - ONE);
    let v101 = spec_dot3(g.spec_gradient(c101), rx - ONE, ry, rz - ONE);
    let v011 = spec_dot3(g.spec_gradient(c011), rx, ry - ONE, rz - ONE);
    let v111 = spec_dot3(g.spec_gradient(c111), rx - ONE, ry - ONE, rz - ONE);
    let tx = n.spec_interp().spec_interp(rx);
    let ty = n.spec_interp().spec_interp(ry);
    let tz = n.spec_interp().spec_interp(rz);
    n.spec_interp().lemma_interp_range(rx);
    n.spec_interp().lemma_interp_range(ry);
    n.spec_interp().lemma_interp_range(rz);
    lemma_fxlerp_minmax(v000, v100, tx);
    lemma_fxlerp_minmax(v010, v110, tx);
    lemma_fxlerp_minmax(v001, v101, tx);
    lemma_fxlerp_minmax(v011, v111, tx);
    lemma_fxlerp_minmax(fxlerp(v000, v100, tx), fxlerp(v010, v110, tx), ty);
    lemma_fxlerp_minmax(fxlerp(v001, v101, tx), fxlerp(v011, v111, tx), ty);
    let front = fxlerp(fxlerp(v000, v100, tx), fxlerp(v010, v110, tx), ty);
    let back = fxlerp(fxlerp(v001, v101, tx), fxlerp(v011, v111, tx), ty);
    lemma_fxlerp_minmax(front, back, tz);
    lemma_sqrt2_scale(fxlerp(front, back, tz), 3);
}

/// A corner influence with a unit-range gradient and unit-range offsets is
/// bounded by `3 * ONE`.
proof fn lemma_dot3_bounded(g: Point3, dx: int, dy: int, dz: int)
    requires
        g.gv_ok(),
        -ONE <= dx <= ONE,
        -ONE <= dy <= ONE,
        -ONE <= dz <= ONE,
    ensures
        -3 * ONE <= spec_dot3(g, dx, dy, dz) <= 3 * ONE,
{
    lemma_fxmul_unit_abs(g.x as int, dx, ONE as int);
    lemma_fxmul_unit_abs(g.y as int, dy, ONE as int);
    lemma_fxmul_unit_abs(g.z as int, dz, ONE as int);
}


/// Glue: a gradient factory driving one-dimensional gradient noise per
/// octave.
struct PerlinNoiseFactory1d<F> {
    factory: F,
}

/// Glue: a gradient factory driving two-dimensional gradient noise per
/// octave.
struct PerlinNoiseFactory2d<F> {
    factory: F,
}

/// Glue: a gradient factory driving three-dimensional gradient noise per
/// octave.
struct PerlinNoiseFactory3d<F> {
    factory: F,
}

impl<
    Pr: GradientProvider<u32, i64>,
    F: crate::gradient::GradientFactory<u32, i64, Pr>,
> crate::octave::NoiseFactory<i64, Perlin1d<Pr, Hermite5thOrderInterpolator>> for PerlinNoiseFactory1d<
    F,
> {
    closed spec fn nf_wf(&self) -> bool {
        self.factory.f_wf()
    }

    fn build(&mut self, octave_index: u32, frequency: i64, amplitude: i64) -> (n: Perlin1d<
        Pr,
        Hermite5thOrderInterpolator,
    >) {
        let provider = self.factory.build(octave_index);
        let f = crate::fixed::clamp_value(frequency, 1, MAX_FREQUENCY);
        match Perlin1d::new(f, provider) {
            Ok(p) => p,
            Err(_) => vstd::pervasive::unreached(),
        }
    }
}

impl<
    Pr: GradientProvider<Lattice2, Point2>,
    F: crate::gradient::GradientFactory<Lattice2, Point2, Pr>,
> crate::octave::NoiseFactory<Point2, Perlin2d<Pr, Hermite5thOrderInterpolator>> for PerlinNoiseFactory2d<
    F,
> {
    closed spec fn nf_wf(&self) -> bool {
        self.factory.f_wf()
    }

    fn build(&mut self, octave_index: u32, frequency: Point2, amplitude: i64) -> (n: Perlin2d<
        Pr,
        Hermite5thOrderInterpolator,
    >) {
        let provider = self.factory.build(octave_index);
        let f = Point2 {
            x: crate::fixed::clamp_value(frequency.x, 1, MAX_FREQUENCY),
            y: crate::fixed::clamp_value(frequency.y, 1, MAX_FREQUENCY),
        };
        match Perlin2d::new(f, provider) {
            Ok(p) => p,
            Err(_) => vstd::pervasive::unreached(),
        }
    }
}

impl<
    Pr: GradientProvider<Lattice3, Point3>,
    F: crate::gradient::GradientFactory<Lattice3, Point3, Pr>,
> crate::octave::NoiseFactory<Point3, Perlin3d<Pr, Hermite5thOrderInterpolator>> for PerlinNoiseFactory3d<
    F,
> {
    closed spec fn nf_wf(&self) -> bool {
        self.factory.f_wf()
    }

    fn build(&mut self, octave_index: u32, frequency: Point3, amplitude: i64) -> (n: Perlin3d<
        Pr,
        Hermite5thOrderInterpolator,
    >) {
        let provider = self.factory.build(octave_index);
        let f = Point3 {
            x: crate::fixed::clamp_value(frequency.x, 1, MAX_FREQUENCY),
            y: crate::fixed::clamp_value(frequency.y, 1, MAX_FREQUENCY),
            z: crate::fixed::clamp_value(frequency.z, 1, MAX_FREQUENCY),
        };
        match Perlin3d::new(f, provider) {
            Ok(p) => p,
            Err(_) => vstd::pervasive::unreached(),
        }
    }
}

impl<Pr: GradientProvider<u32, i64>> Perlin1d<Pr, Hermite5thOrderInterpolator> {
    /// A fractal sum of one-dimensional gradient-noise octaves: frequencies
    /// scale geometrically from the initial frequency, amplitudes follow the
    /// inverse powers of the persistence normalized to sum to exactly `ONE`,
    /// and each octave draws its gradients from the factory.
    pub fn build_geometric_octaves<F: crate::gradient::GradientFactory<u32, i64, Pr>>(
        initial_frequency: i64,
        num_octaves: u32,
        frequency_scaling: i64,
        persistance: i64,
        gradient_factory: F,
    ) -> (result: OctaveNoise<Perlin1d<Pr, Hermite5thOrderInterpolator>>)
        requires
            gradient_factory.f_wf(),
            ONE <= persistance <= ONE * ONE,
            num_octaves <= 0x10000,
            crate::octave::spec_frequency_steps_ok(
                initial_frequency,
                frequency_scaling,
                num_octaves as int,
            ),
        ensures
            result.spec_octaves().len() == num_octaves as int,
            result.wf(),
            num_octaves > 0 ==> crate::octave::octaves_amplitude_sum(result.spec_octaves())
                == ONE,
            forall|i: int|
                1 <= i < num_octaves as int ==> (#[trigger] result.spec_octaves()[i])
                    .spec_amplitude() as int == crate::octave::spec_normalized_amplitude(
                    persistance as int,
                    num_octaves as int,
                    i,
                ),
            forall|i: int|
                0 <= i < num_octaves as int ==> 0 <= (#[trigger] result.spec_octaves()[i])
                    .spec_amplitude() <= ONE,
    {
        let mut builder = PerlinNoiseFactory1d { factory: gradient_factory };
        crate::octave::build_geometric_fractal_noise(
            initial_frequency,
            num_octaves,
            frequency_scaling,
            persistance,
            &mut builder,
        )
    }
}

impl<Pr: GradientProvider<Lattice2, Point2>> Perlin2d<Pr, Hermite5thOrderInterpolator> {
    /// A fractal sum of two-dimensional gradient-noise octaves; see the
    /// one-dimensional variant for the amplitude law.
    pub fn build_geometric_octaves<F: crate::gradient::GradientFactory<Lattice2, Point2, Pr>>(
        initial_frequency: Point2,
        num_octaves: u32,
        frequency_scaling: Point2,
        persistance: i64,
        gradient_factory: F,
    ) -> (result: OctaveNoise<Perlin2d<Pr, Hermite5thOrderInterpolator>>)
        requires
            gradient_factory.f_wf(),
            ONE <= persistance <= ONE * ONE,
            num_octaves <= 0x10000,
            crate::octave::spec_frequency_steps_ok(
                initial_frequency,
                frequency_scaling,
                num_octaves as int,
            ),
        ensures
            result.spec_octaves().len() == num_octaves as int,
            result.wf(),
            num_octaves > 0 ==> crate::octave::octaves_amplitude_sum(result.spec_octaves())
                == ONE,
            forall|i: int|
                1 <= i < num_octaves as int ==> (#[trigger] result.spec_octaves()[i])
                    .spec_amplitude() as int == crate::octave::spec_normalized_amplitude(
                    persistance as int,
                    num_octaves as int,
                    i,
                ),
            forall|i: int|
                0 <= i < num_octaves as int ==> 0 <= (#[trigger] result.spec_octaves()[i])
                    .spec_amplitude() <= ONE,
    {
        let mut builder = PerlinNoiseFactory2d { factory: gradient_factory };
        crate::octave::build_geometric_fractal_noise(
            initial_frequency,
            num_octaves,
            frequency_scaling,
            persistance,
            &mut builder,
        )
    }
}

impl<Pr: GradientProvider<Lattice3, Point3>> Perlin3d<Pr, Hermite5thOrderInterpolator> {
    /// A fractal sum of three-dimensional gradient-noise octaves; see the
    /// one-dimensional variant for the amplitude law.
    pub fn build_geometric_octaves<F: crate::gradient::GradientFactory<Lattice3, Point3, Pr>>(
        initial_frequency: Point3,
        num_octaves: u32,
        frequency_scaling: Point3,
        persistance: i64,
        gradient_factory: F,
    ) -> (result: OctaveNoise<Perlin3d<Pr, Hermite5thOrderInterpolator>>)
        requires
            gradient_factory.f_wf(),
            ONE <= persistance <= ONE * ONE,
            num_octaves <= 0x10000,
            crate::octave::spec_frequency_steps_ok(
                initial_frequency,
                frequency_scaling,
                num_octaves as int,
            ),
        ensures
            result.spec_octaves().len() == num_octaves as int,
            result.wf(),
            num_octaves > 0 ==> crate::octave::octaves_amplitude_sum(result.spec_octaves())
                == ONE,
            forall|i: int|
                1 <= i < num_octaves as int ==> (#[trigger] result.spec_octaves()[i])
                    .spec_amplitude() as int == crate::octave::spec_normalized_amplitude(
                    persistance as int,
                    num_octaves as int,
                    i,
                ),
            forall|i: int|
                0 <= i < num_octaves as int ==> 0 <= (#[trigger] result.spec_octaves()[i])
                    .spec_amplitude() <= ONE,
    {
        let mut builder = PerlinNoiseFactory3d { factory: gradient_factory };
        crate::octave::build_geometric_fractal_noise(
            initial_frequency,
            num_octaves,
            frequency_scaling,
            persistance,
            &mut builder,
        )
    }
}


/// Every gradient stored in a slice is in range.
fn check_slice_gradients<G: GradientVector>(data: &[G]) -> (b: bool)
    ensures
        b == forall|i: int| 0 <= i < data@.len() ==> (#[trigger] data@[i]).gv_ok(),
{
    let mut i: usize = 0;
    while i < data.len()
        invariant
            i <= data@.len(),
            forall|k: int| 0 <= k < i as int ==> (#[trigger] data@[k]).gv_ok(),
        decreases data@.len() - i,
    {
        if !data[i].check_ok() {
            return false;
        }
        i = i + 1;
    }
    true
}

impl Perlin1d<Vec<i64>, Hermite5thOrderInterpolator> {
    /// Gradient noise over a dense one-dimensional gradient grid, one
    /// gradient per lattice vertex: `n` vertices bound `n - 1` cells, so the
    /// frequency is the vertex count less one. Succeeds on exactly the grids
    /// with an addressable number of in-range gradients; the two errors name
    /// which condition failed.
    pub fn from_grid(grid: Vec<i64>) -> (result: Result<
        Perlin1d<Vec<i64>, Hermite5thOrderInterpolator>,
        NoiseError,
    >)
        ensures
            match result {
                Ok(r) => {
                    &&& 2 <= grid@.len() <= 0x8000_0001
                    &&& forall|i: int| 0 <= i < grid@.len() ==> (#[trigger] grid@[i]).gv_ok()
                    &&& r.wf()
                    &&& r.spec_frequency() as int == (grid@.len() - 1) * (ONE as int)
                    &&& r.spec_gradients() == grid
                },
                Err(e) => {
                    ||| (e == NoiseError::ZeroSize && (grid@.len() < 2 || grid@.len()
                        > 0x8000_0001))
                    ||| (e == NoiseError::InvalidRange && 2 <= grid@.len() <= 0x8000_0001
                        && exists|i: int| 0 <= i < grid@.len() && !(#[trigger] grid@[i]).gv_ok())
                },
            },
    {
        proof {
            assert(ONE == 65536);
        }
        if grid.len() < 2 || grid.len() > 0x8000_0001usize {
            return Err(NoiseError::ZeroSize);
        }
        if !check_slice_gradients(grid.as_slice()) {
            return Err(NoiseError::InvalidRange);
        }
        let frequency: i64 = ((grid.len() - 1) as i64) * ONE;
        match Perlin1d::new(frequency, grid) {
            Ok(p) => Ok(p),
            Err(_) => {
                // A dense grid of n vertices reports n - 1 cells, which is
                // exactly the requested frequency, so the extent check
                // cannot fail.
                proof {
                    assert(false);
                }
                vstd::pervasive::unreached()
            },
        }
    }
}

impl Perlin2d<crate::grid::Grid2d<Point2>, Hermite5thOrderInterpolator> {
    /// Whether the grid's vertex counts admit a dense noise: at least two
    /// vertices per axis (one cell) and few enough to address.
    pub open spec fn spec_grid_sizes_ok(grid: crate::grid::Grid2d<Point2>) -> bool {
        &&& 2 <= grid.spec_width() <= 0x8000_0001
        &&& 2 <= grid.spec_height() <= 0x8000_0001
    }

    /// Gradient noise over a dense two-dimensional gradient grid, one
    /// gradient per lattice vertex: the per-axis frequency is the vertex
    /// count less one. Succeeds on exactly the grids with addressable vertex
    /// counts and in-range gradients; the two errors name which condition
    /// failed.
    pub fn from_grid(grid: crate::grid::Grid2d<Point2>) -> (result: Result<
        Perlin2d<crate::grid::Grid2d<Point2>, Hermite5thOrderInterpolator>,
        NoiseError,
    >)
        requires
            crate::grid::Grid2d::wf(&grid),
        ensures
            match result {
                Ok(r) => {
                    &&& Self::spec_grid_sizes_ok(grid)
                    &&& forall|i: int| 0 <= i < grid@.len() ==> (#[trigger] grid@[i]).gv_ok()
                    &&& r.wf()
                    &&& r.spec_frequency().x as int == (grid.spec_width() - 1) * (ONE as int)
                    &&& r.spec_frequency().y as int == (grid.spec_height() - 1) * (ONE as int)
                    &&& r.spec_gradients() == grid
                },
                Err(e) => {
                    ||| (e == NoiseError::ZeroSize && !Self::spec_grid_sizes_ok(grid))
                    ||| (e == NoiseError::InvalidRange && Self::spec_grid_sizes_ok(grid)
                        && exists|i: int| 0 <= i < grid@.len() && !(#[trigger] grid@[i]).gv_ok())
                },
            },
    {
        proof {
            assert(ONE == 65536);
        }
        if grid.width() < 2 || grid.height() < 2 || grid.width() > 0x8000_0001u32
            || grid.height() > 0x8000_0001u32 {
            return Err(NoiseError::ZeroSize);
        }
        if !check_slice_gradients(grid.data()) {
            return Err(NoiseError::InvalidRange);
        }
        let frequency = Point2 {
            x: ((grid.width() - 1) as i64) * ONE,
            y: ((grid.height() - 1) as i64) * ONE,
        };
        match Perlin2d::new(frequency, grid) {
            Ok(p) => Ok(p),
            Err(_) => {
                // A dense grid of n vertices per axis reports n - 1 cells,
                // which is exactly the requested frequency, so the extent
                // check cannot fail.
                proof {
                    assert(false);
                }
                vstd::pervasive::unreached()
            },
        }
    }
}

impl Perlin3d<crate::grid::Grid3d<Point3>, Hermite5thOrderInterpolator> {
    /// Whether the grid's vertex counts admit a dense noise: at least two
    /// vertices per axis (one cell) and few enough to address.
    pub open spec fn spec_grid_sizes_ok(grid: crate::grid::Grid3d<Point3>) -> bool {
        &&& 2 <= grid.spec_width() <= 0x8000_0001
        &&& 2 <= grid.spec_height() <= 0x8000_0001
        &&& 2 <= grid.spec_depth() <= 0x8000_0001
    }

    /// Gradient noise over a dense three-dimensional gradient grid, one
    /// gradient per lattice vertex: the per-axis frequency is the vertex
    /// count less one. Succeeds on exactly the grids with addressable vertex
    /// counts and in-range gradients; the two errors name which condition
    /// failed.
    pub fn from_grid(grid: crate::grid::Grid3d<Point3>) -> (result: Result<
        Perlin3d<crate::grid::Grid3d<Point3>, Hermite5thOrderInterpolator>,
        NoiseError,
    >)
        requires
            crate::grid::Grid3d::wf(&grid),
        ensures
            match result {
                Ok(r) => {
                    &&& Self::spec_grid_sizes_ok(grid)
                    &&& forall|i: int| 0 <= i < grid@.len() ==> (#[trigger] grid@[i]).gv_ok()
                    &&& r.wf()
                    &&& r.spec_frequency().x as int == (grid.spec_width() - 1) * (ONE as int)
                    &&& r.spec_frequency().y as int == (grid.spec_height() - 1) * (ONE as int)
                    &&& r.spec_frequency().z as int == (grid.spec_depth() - 1) * (ONE as int)
                    &&& r.spec_gradients() == grid
                },
                Err(e) => {
                    ||| (e == NoiseError::ZeroSize && !Self::spec_grid_sizes_ok(grid))
                    ||| (e == NoiseError::InvalidRange && Self::spec_grid_sizes_ok(grid)
                        && exists|i: int| 0 <= i < grid@.len() && !(#[trigger] grid@[i]).gv_ok())
                },
            },
    {
        proof {
            assert(ONE == 65536);
        }
        if grid.width() < 2 || grid.height() < 2 || grid.depth() < 2
            || grid.width() > 0x8000_0001u32 || grid.height() > 0x8000_0001u32
            || grid.depth() > 0x8000_0001u32 {
            return Err(NoiseError::ZeroSize);
        }
        if !check_slice_gradients(grid.data()) {
            return Err(NoiseError::InvalidRange);
        }
        let frequency = Point3 {
            x: ((grid.width() - 1) as i64) * ONE,
            y: ((grid.height() - 1) as i64) * ONE,
            z: ((grid.depth() - 1) as i64) * ONE,
        };
        match Perlin3d::new(frequency, grid) {
            Ok(p) => Ok(p),
            Err(_) => {
                // A dense grid of n vertices per axis reports n - 1 cells,
                // which is exactly the requested frequency, so the extent
                // check cannot fail.
                proof {
                    assert(false);
                }
                vstd::pervasive::unreached()
            },
        }
    }
}

} // verus!
