//! Gridless gradient noise: the classic improved-Perlin scheme over a fixed
//! 256-entry byte table, hashing lattice coordinates by masking and XOR-ing
//! their low bytes and picking gradients from a fixed set of twelve unit
//! directions.

use vstd::prelude::*;

verus! {

use crate::fixed::{
    ONE, FRAC_1_SQRT_2, SQRT_2, fxlerp, fx_lerp, lemma_fxlerp_minmax,
};
use crate::gradient::GradientVector;
use crate::interpolate::{InterpolationFunction, Hermite5thOrderInterpolator};
use crate::noise::Noise;
use crate::perlin::{spec_corner, spec_offset, spec_dot2, dot2, lemma_sqrt2_scale, MAX_FREQUENCY};
use crate::point::Point2;

/// A 256-entry byte table derived from a shuffled permutation of `0 .. 256`:
/// entry `j` is the permutation's value at `j`, reduced modulo 255 so it
/// fits a byte. Every byte below 255 therefore appears, the zero byte twice
/// (for the permutation values 0 and 255), and no other byte repeats.
#[derive(Clone, Debug)]
pub struct BytePermutationTable {
    permutations: crate::gradient::PermutationTable,
}

impl View for BytePermutationTable {
    type V = Seq<u8>;

    closed spec fn view(&self) -> Seq<u8> {
        Seq::new(self.permutations@.len(), |i: int| (self.permutations@[i] % 255) as u8)
    }
}

impl BytePermutationTable {
    /// The underlying shuffled permutation of `0 .. 256`.
    pub closed spec fn spec_permutations(&self) -> crate::gradient::PermutationTable {
        self.permutations
    }

    /// The bytes are a permutation of `0 .. 256` reduced modulo 255: the
    /// underlying table is a bijection on `0 .. 256`, and entry `j` is its
    /// value at `j` modulo 255.
    pub open spec fn wf(&self) -> bool {
        &&& self.spec_permutations().wf()
        &&& self.spec_permutations()@.len() == 256
        &&& self@.len() == 256
        &&& forall|i: int|
            0 <= i < 256 ==> (#[trigger] self@[i]) as int == (self.spec_permutations()@[i] as int)
                % 255
    }

    /// Build the table: shuffle the indices `0 .. 256` by a Fisher-Yates
    /// pass over the supplied random source and reduce each modulo 255.
    pub fn new(rng: &mut rand::rngs::StdRng) -> (r: BytePermutationTable)
        ensures
            r.wf(),
    {
        match crate::gradient::PermutationTable::new(rng, 256) {
            Ok(p) => BytePermutationTable { permutations: p },
            Err(_) => {
                // A request of 256 entries is never zero-sized.
                proof {
                    assert(false);
                }
                vstd::pervasive::unreached()
            },
        }
    }

    /// The number of entries.
    pub fn len(&self) -> (r: usize)
        requires
            self.wf(),
        ensures
            r == self@.len(),
    {
        self.permutations.len()
    }

    /// Read one entry.
    pub fn get(&self, index: usize) -> (r: u8)
        requires
            self.wf(),
            index < 256,
        ensures
            r == self@[index as int],
            r < 255,
    {
        (self.permutations.get(index as u32) % 255) as u8
    }
}

/// Law: the byte table realizes its stated multiset. Every byte below 255
/// appears in a well-formed table, and the zero byte appears at two distinct
/// positions (where the underlying permutation holds 0 and 255).
pub proof fn lemma_gridless_table_holds_every_byte(t: &BytePermutationTable, v: u8)
    requires
        t.wf(),
        v < 255,
    ensures
        exists|i: int| 0 <= i < 256 && t@[i] == v,
        v == 0 ==> exists|i: int, j: int|
            0 <= i < 256 && 0 <= j < 256 && i != j && t@[i] == 0 && t@[j] == 0,
{
    let p = t.spec_permutations();
    crate::gradient::lemma_permutation_is_bijection(&p, v as u32);
    let i = choose|i: int| 0 <= i < p@.len() && p@[i] == v as u32;
    assert(t@[i] == v);
    if v == 0 {
        crate::gradient::lemma_permutation_is_bijection(&p, 255u32);
        let j = choose|j: int| 0 <= j < p@.len() && p@[j] == 255u32;
        assert(t@[j] == 0);
        assert(i != j);
        assert(0 <= i < 256 && 0 <= j < 256 && i != j && t@[i] == 0 && t@[j] == 0);
    }
}

/// Hash a pair of lattice coordinates into a table index by masking each to
/// its low byte and XOR-ing the two.
pub fn hash_2d(x: i64, y: i64) -> (r: usize)
    ensures
        r as int == ((x & 0xFF) ^ (y & 0xFF)) as int,
        r < 256,
{
    proof {
        assert(0 <= ((x & 0xFF) ^ (y & 0xFF)) < 256) by (bit_vector);
    }
    ((x & 0xFF) ^ (y & 0xFF)) as usize
}

/// The gradient assigned to a hash byte: one of the twelve classic unit
/// directions (the four axis directions, repeated, and the four diagonals),
/// chosen by the hash modulo twelve.
pub open spec fn spec_gradient_2d(hash: u8) -> Point2 {
    let h = (hash as int) % 12;
    if h == 0 || h == 4 {
        Point2 { x: ONE, y: 0 }
    } else if h == 1 || h == 5 {
        Point2 { x: 0, y: ONE }
    } else if h == 2 || h == 6 {
        Point2 { x: (-ONE) as i64, y: 0 }
    } else if h == 3 || h == 7 {
        Point2 { x: 0, y: (-ONE) as i64 }
    } else if h == 8 {
        Point2 { x: FRAC_1_SQRT_2, y: FRAC_1_SQRT_2 }
    } else if h == 9 {
        Point2 { x: (-FRAC_1_SQRT_2) as i64, y: FRAC_1_SQRT_2 }
    } else if h == 10 {
        Point2 { x: (-FRAC_1_SQRT_2) as i64, y: (-FRAC_1_SQRT_2) as i64 }
    } else {
        Point2 { x: FRAC_1_SQRT_2, y: (-FRAC_1_SQRT_2) as i64 }
    }
}

/// Map a hash byte to its gradient direction.
pub fn get_2d_gradient(hash: u8) -> (g: Point2)
    ensures
        g == spec_gradient_2d(hash),
        g.gv_ok(),
{
    let h: u8 = hash % 12;
    if h == 0 || h == 4 {
        Point2 { x: ONE, y: 0 }
    } else if h == 1 || h == 5 {
        Point2 { x: 0, y: ONE }
    } else if h == 2 || h == 6 {
        Point2 { x: -ONE, y: 0 }
    } else if h == 3 || h == 7 {
        Point2 { x: 0, y: -ONE }
    } else if h == 8 {
        Point2 { x: FRAC_1_SQRT_2, y: FRAC_1_SQRT_2 }
    } else if h == 9 {
        Point2 { x: -FRAC_1_SQRT_2, y: FRAC_1_SQRT_2 }
    } else if h == 10 {
        Point2 { x: -FRAC_1_SQRT_2, y: -FRAC_1_SQRT_2 }
    } else {
        Point2 { x: FRAC_1_SQRT_2, y: -FRAC_1_SQRT_2 }
    }
}

/// Gridless two-dimensional gradient noise over a shuffled byte table.
///
/// Unlike the lattice-bounded evaluators, coordinates here are taken in
/// lattice space directly (not normalized), and the lattice wraps every 256
/// cells through the byte hash.
#[derive(Clone, Debug)]
pub struct GridlessPerlin2d<P> {
    permutations: BytePermutationTable,
    interp: P,
}

impl GridlessPerlin2d<Hermite5thOrderInterpolator> {
    /// Noise over a table shuffled from the given seed, with the default
    /// kernel.
    pub fn with_seed(seed: u64) -> (r: GridlessPerlin2d<Hermite5thOrderInterpolator>)
        ensures
            r.wf(),
    {
        let mut rng = crate::random::rng_from_seed(seed);
        let permutations = BytePermutationTable::new(&mut rng);
        GridlessPerlin2d { permutations, interp: Hermite5thOrderInterpolator::new() }
    }
}

impl<P: InterpolationFunction> GridlessPerlin2d<P> {
    /// The byte table.
    pub closed spec fn spec_permutations(&self) -> BytePermutationTable {
        self.permutations
    }

    /// The byte table.
    pub fn permutation_table(&self) -> (r: &BytePermutationTable)
        ensures
            r == self.spec_permutations(),
    {
        &self.permutations
    }

    /// The interpolation kernel.
    pub closed spec fn spec_kernel(&self) -> P {
        self.interp
    }

    /// Replace the interpolation kernel.
    pub fn set_interpolator<P2: InterpolationFunction>(self, interpolator: P2) -> (r:
        GridlessPerlin2d<P2>)
        ensures
            r.spec_permutations() == self.spec_permutations(),
            r.spec_kernel() == interpolator,
    {
        GridlessPerlin2d { permutations: self.permutations, interp: interpolator }
    }

    /// The gradient of a lattice corner: the corner coordinates hashed
    /// through the byte table.
    pub open spec fn spec_corner_gradient(&self, x: i64, y: i64) -> Point2 {
        spec_gradient_2d(self.spec_permutations()@[((x & 0xFF) ^ (y & 0xFF)) as int])
    }
}

impl<P: InterpolationFunction> Noise<Point2> for GridlessPerlin2d<P> {
    open spec fn wf(&self) -> bool {
        self.spec_permutations().wf()
    }

    open spec fn valid_at(&self, p: Point2) -> bool {
        0 <= p.x < MAX_FREQUENCY && 0 <= p.y < MAX_FREQUENCY
    }

    open spec fn spec_value(&self, p: Point2) -> int {
        let x0 = spec_corner(p.x as int);
        let y0 = spec_corner(p.y as int);
        let rx = spec_offset(p.x as int);
        let ry = spec_offset(p.y as int);
        let v00 = spec_dot2(self.spec_corner_gradient(x0 as i64, y0 as i64), rx, ry);
        let v10 = spec_dot2(self.spec_corner_gradient((x0 + 1) as i64, y0 as i64), rx - ONE, ry);
        let v01 = spec_dot2(self.spec_corner_gradient(x0 as i64, (y0 + 1) as i64), rx, ry - ONE);
        let v11 = spec_dot2(
            self.spec_corner_gradient((x0 + 1) as i64, (y0 + 1) as i64),
            rx - ONE,
            ry - ONE,
        );
        let tx = self.spec_kernel().spec_interp(rx);
        let ty = self.spec_kernel().spec_interp(ry);
        crate::fixed::fxmul(
            fxlerp(fxlerp(v00, v10, tx), fxlerp(v01, v11, tx), ty),
            SQRT_2 as int,
        )
    }

    open spec fn frequency_defined(&self) -> bool {
        true
    }

    open spec fn spec_frequency(&self) -> Point2 {
        Point2 { x: ONE, y: ONE }
    }

    fn value_at(&self, p: Point2) -> (v: i64) {
        proof {
            assert(ONE == 65536);
        }
        let x0: i64 = p.x / 65536;
        let y0: i64 = p.y / 65536;
        let rx: i64 = p.x % 65536;
        let ry: i64 = p.y % 65536;
        proof {
            vstd::arithmetic::div_mod::lemma_mod_bound(p.x as int, 65536);
            vstd::arithmetic::div_mod::lemma_mod_bound(p.y as int, 65536);
            vstd::arithmetic::div_mod::lemma_div_pos_is_pos(p.x as int, 65536);
            vstd::arithmetic::div_mod::lemma_div_pos_is_pos(p.y as int, 65536);
            vstd::arithmetic::div_mod::lemma_multiply_divide_lt(p.x as int, 65536, 0x8000_0000);
            vstd::arithmetic::div_mod::lemma_multiply_divide_lt(p.y as int, 65536, 0x8000_0000);
        }
        let g00 = get_2d_gradient(self.permutations.get(hash_2d(x0, y0)));
        let g10 = get_2d_gradient(self.permutations.get(hash_2d(x0 + 1, y0)));
        let g01 = get_2d_gradient(self.permutations.get(hash_2d(x0, y0 + 1)));
        let g11 = get_2d_gradient(self.permutations.get(hash_2d(x0 + 1, y0 + 1)));
        let v00 = dot2(g00, rx, ry);
        let v10 = dot2(g10, rx - ONE, ry);
        let v01 = dot2(g01, rx, ry - ONE);
        let v11 = dot2(g11, rx - ONE, ry - ONE);
        let tx: i64 = self.interp.interpolation_value(rx);
        let ty: i64 = self.interp.interpolation_value(ry);
        proof {
            self.interp.lemma_interp_range(rx as int);
            self.interp.lemma_interp_range(ry as int);
            lemma_fxlerp_minmax(v00 as int, v10 as int, tx as int);
            lemma_fxlerp_minmax(v01 as int, v11 as int, tx as int);
        }
        let p1: i64 = fx_lerp(v00, v10, tx);
        let p2: i64 = fx_lerp(v01, v11, tx);
        proof {
            lemma_fxlerp_minmax(p1 as int, p2 as int, ty as int);
        }
        let raw: i64 = fx_lerp(p1, p2, ty);
        proof {
            lemma_sqrt2_scale(raw as int, 2);
        }
        crate::fixed::fx_mul(raw, SQRT_2)
    }

    fn frequency(&self) -> (f: Point2) {
        Point2 { x: ONE, y: ONE }
    }
}

} // verus!
