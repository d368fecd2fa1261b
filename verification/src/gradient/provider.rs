//! Gradient providers: mappings from lattice coordinates to gradients.
//!
//! Two flavors exist. `GradientTable` is a flat array read modulo its
//! length; `PermutedGradientTable` pairs it with a `PermutationTable` and
//! hashes multi-dimensional lattice coordinates through XOR-combined
//! permutation lookups, wrapped to the table size by bitmask (the size is a
//! power of two, enforced at construction). Dense grids (one gradient per
//! lattice vertex, no hashing) live in the `grid` module and implement the
//! same `GradientProvider` trait.

use vstd::prelude::*;

verus! {

use crate::error::NoiseError;
use crate::fixed::{FRAC_1_SQRT_2, ONE};
use crate::gradient::{GradientBuilder, GradientVector, PermutationTable};
use crate::point::Point2;

/// A lattice coordinate: one, two or three unsigned axis indices.
pub trait LatticeIndex: Copy {
    /// Componentwise less-or-equal.
    spec fn le(self, o: Self) -> bool;
}

impl LatticeIndex for u32 {
    open spec fn le(self, o: Self) -> bool {
        self <= o
    }
}

/// A two-dimensional lattice coordinate.
#[derive(Clone, Copy, Debug, PartialEq, Eq, Structural)]
pub struct Lattice2 {
    pub x: u32,
    pub y: u32,
}

/// A three-dimensional lattice coordinate.
#[derive(Clone, Copy, Debug, PartialEq, Eq, Structural)]
pub struct Lattice3 {
    pub x: u32,
    pub y: u32,
    pub z: u32,
}

impl LatticeIndex for Lattice2 {
    open spec fn le(self, o: Self) -> bool {
        self.x <= o.x && self.y <= o.y
    }
}

impl LatticeIndex for Lattice3 {
    open spec fn le(self, o: Self) -> bool {
        self.x <= o.x && self.y <= o.y && self.z <= o.z
    }
}

/// A capability mapping lattice coordinates to gradients.
///
/// `spec_max_dimensions` reports the largest coordinate the provider can
/// address (`None` when unbounded, as for hashed tables); `in_extent` holds
/// at every coordinate `get_gradient` may be asked for, and every gradient in
/// extent is in range (`lemma_gradient_ok`).
pub trait GradientProvider<I: LatticeIndex, G: GradientVector>: Sized {
    /// The provider's internal invariant.
    spec fn wf(&self) -> bool;

    /// The coordinates at which a gradient can be fetched.
    spec fn in_extent(&self, index: I) -> bool;

    /// The gradient at a coordinate, as a mathematical function.
    spec fn spec_gradient(&self, index: I) -> G;

    /// The largest addressable coordinate, if the provider is bounded.
    spec fn spec_max_dimensions(&self) -> Option<I>;

    /// Every coordinate below the reported maximum (every coordinate at all,
    /// for an unbounded provider) is in extent.
    proof fn lemma_extent(&self, index: I)
        requires
            self.wf(),
            match self.spec_max_dimensions() {
                Some(d) => index.le(d),
                None => true,
            },
        ensures
            self.in_extent(index),
    ;

    /// Gradients in extent are in range.
    proof fn lemma_gradient_ok(&self, index: I)
        requires
            self.wf(),
            self.in_extent(index),
        ensures
            self.spec_gradient(index).gv_ok(),
    ;

    /// Fetch the gradient at a lattice coordinate.
    fn get_gradient(&self, index: I) -> (g: G)
        requires
            self.wf(),
            self.in_extent(index),
        ensures
            g == self.spec_gradient(index),
    ;

    /// Report the largest addressable coordinate, or `None` when unbounded.
    fn max_dimensions(&self) -> (d: Option<I>)
        requires
            self.wf(),
        ensures
            d == self.spec_max_dimensions(),
    ;
}

/// A flat array of gradients, read modulo its length.
///
/// Invariant (`wf`): non-empty, and every stored gradient is in range.
#[derive(Clone, Debug)]
pub struct GradientTable<G> {
    table: Vec<G>,
}

impl<G> View for GradientTable<G> {
    type V = Seq<G>;

    closed spec fn view(&self) -> Seq<G> {
        self.table@
    }
}

impl<G: GradientVector> GradientTable<G> {
    /// Non-empty, with every gradient in range.
    pub open spec fn wf(&self) -> bool {
        &&& 0 < self@.len()
        &&& forall|i: int| 0 <= i < self@.len() ==> self@[i].gv_ok()
    }

    /// Invoke the builder `size` times, storing the results in order.
    /// A zero size is rejected: gradient access would be undefined.
    pub fn new<B: GradientBuilder<G>>(builder: &mut B, size: u32) -> (result: Result<
        GradientTable<G>,
        NoiseError,
    >)
        ensures
            match result {
                Ok(t) => size > 0 && t.wf() && t@.len() == size as int,
                Err(e) => size == 0 && e == NoiseError::ZeroSize,
            },
    {
        if size == 0 {
            return Err(NoiseError::ZeroSize);
        }
        let mut table: Vec<G> = Vec::new();
        let mut i: u32 = 0;
        while i < size
            invariant
                i <= size,
                table@.len() == i as int,
                forall|k: int| 0 <= k < i as int ==> table@[k].gv_ok(),
            decreases size - i,
        {
            let g = builder.make_gradient();
            table.push(g);
            i = i + 1;
        }
        Ok(GradientTable { table })
    }

    /// Wrap caller-supplied gradients. The list must be non-empty and every
    /// gradient must be in range; otherwise the offending condition is
    /// reported.
    pub fn from_gradients(table: Vec<G>) -> (result: Result<GradientTable<G>, NoiseError>)
        ensures
            match result {
                Ok(t) => t.wf() && t@ == table@,
                Err(e) => {
                    ||| (e == NoiseError::ZeroSize && table@.len() == 0)
                    ||| (e == NoiseError::InvalidRange && exists|i: int|
                        0 <= i < table@.len() && !table@[i].gv_ok())
                },
            },
    {
        if table.len() == 0 {
            return Err(NoiseError::ZeroSize);
        }
        let mut i: usize = 0;
        while i < table.len()
            invariant
                i <= table@.len(),
                forall|k: int| 0 <= k < i as int ==> table@[k].gv_ok(),
            decreases table@.len() - i,
        {
            if !table[i].check_ok() {
                return Err(NoiseError::InvalidRange);
            }
            i = i + 1;
        }
        Ok(GradientTable { table })
    }

    /// An element-for-element copy of the table.
    pub fn duplicate(&self) -> (r: GradientTable<G>)
        ensures
            r@ == self@,
    {
        let mut table: Vec<G> = Vec::new();
        let mut i: usize = 0;
        while i < self.table.len()
            invariant
                i <= self@.len(),
                table@ == self@.subrange(0, i as int),
            decreases self@.len() - i,
        {
            table.push(self.table[i]);
            proof {
                assert(table@ =~= self@.subrange(0, i as int + 1));
            }
            i = i + 1;
        }
        proof {
            assert(table@ =~= self@);
        }
        GradientTable { table }
    }

    /// The number of gradients.
    pub fn len(&self) -> (r: usize)
        ensures
            r == self@.len(),
    {
        self.table.len()
    }

    /// Whether the table holds no gradients (never, for a well-formed table).
    pub fn is_empty(&self) -> (r: bool)
        ensures
            r == (self@.len() == 0),
    {
        self.table.is_empty()
    }

    /// Read the gradient at `index`, wrapping modulo the table length.
    pub fn get(&self, index: u32) -> (g: G)
        requires
            self.wf(),
        ensures
            g == self@[(index as int) % (self@.len() as int)],
            g.gv_ok(),
    {
        proof {
            vstd::arithmetic::div_mod::lemma_mod_bound(index as int, self@.len() as int);
        }
        let idx: usize = (index as usize) % self.table.len();
        self.table[idx]
    }
}

impl<G: GradientVector> GradientProvider<u32, G> for GradientTable<G> {
    open spec fn wf(&self) -> bool {
        GradientTable::wf(self)
    }

    open spec fn in_extent(&self, index: u32) -> bool {
        true
    }

    open spec fn spec_gradient(&self, index: u32) -> G {
        self@[(index as int) % (self@.len() as int)]
    }

    open spec fn spec_max_dimensions(&self) -> Option<u32> {
        None
    }

    proof fn lemma_extent(&self, index: u32) {
    }

    proof fn lemma_gradient_ok(&self, index: u32) {
        vstd::arithmetic::div_mod::lemma_mod_bound(index as int, self@.len() as int);
    }

    fn get_gradient(&self, index: u32) -> (g: G) {
        self.get(index)
    }

    fn max_dimensions(&self) -> (d: Option<u32>) {
        None
    }
}

/// `m` is a low bitmask: `m + 1` is a power of two.
pub open spec fn is_low_mask(m: u32) -> bool {
    ((m as u64) & (((m as u64) + 1) as u64)) == 0
}

/// XOR of two values below a low bitmask stays below it.
proof fn lemma_xor_below_mask(a: u32, b: u32, m: u32)
    requires
        a <= m,
        b <= m,
        is_low_mask(m),
    ensures
        (a ^ b) <= m,
{
    assert((a ^ b) <= m) by (bit_vector)
        requires
            a <= m,
            b <= m,
            ((m as u64) & (((m as u64) + 1) as u64)) == 0,
    ;
}

/// A value masked by a low bitmask stays below it.
proof fn lemma_and_below_mask(v: u32, m: u32)
    ensures
        (v & m) <= m,
{
    assert((v & m) <= m) by (bit_vector);
}

/// A gradient table whose lattice hash runs through a permutation table.
///
/// The hash combines multi-dimensional integer coordinates into a single
/// index by XOR-ing permutation-table lookups per axis, wrapped to the
/// permutation table's size via bitmask; the size is a power of two,
/// enforced at construction.
#[derive(Clone, Debug)]
pub struct PermutedGradientTable<G> {
    table: GradientTable<G>,
    permutations: PermutationTable,
}

impl<G: GradientVector> PermutedGradientTable<G> {
    /// The permutation table used by the lattice hash.
    pub closed spec fn spec_permutations(&self) -> PermutationTable {
        self.permutations
    }

    /// The gradients indexed by the hash.
    pub closed spec fn spec_table(&self) -> GradientTable<G> {
        self.table
    }

    /// Both parts are well-formed and the permutation size is a power of
    /// two, so wrapping by bitmask equals wrapping modulo the size.
    pub open spec fn wf(&self) -> bool {
        &&& self.spec_table().wf()
        &&& self.spec_permutations().wf()
        &&& is_low_mask(self.spec_mask())
    }

    /// The bitmask wrapping hash inputs to the permutation size.
    pub open spec fn spec_mask(&self) -> u32 {
        (self.spec_permutations()@.len() - 1) as u32
    }

    /// An axis coordinate wrapped to the permutation size.
    pub open spec fn spec_wrap_val(&self, v: u32) -> u32 {
        v & self.spec_mask()
    }

    /// The hash of a one-dimensional lattice coordinate.
    pub open spec fn spec_index_1d(&self, x: u32) -> u32 {
        self.spec_permutations()@[self.spec_wrap_val(x) as int]
    }

    /// The hash of a two-dimensional lattice coordinate.
    pub open spec fn spec_index_2d(&self, x: u32, y: u32) -> u32 {
        self.spec_permutations()@[(self.spec_index_1d(x) ^ self.spec_wrap_val(y)) as int]
    }

    /// The hash of a three-dimensional lattice coordinate.
    pub open spec fn spec_index_3d(&self, x: u32, y: u32, z: u32) -> u32 {
        self.spec_permutations()@[(self.spec_index_2d(x, y) ^ self.spec_wrap_val(z)) as int]
    }

    /// The hash of a four-dimensional lattice coordinate.
    pub open spec fn spec_index_4d(&self, x: u32, y: u32, z: u32, w: u32) -> u32 {
        self.spec_permutations()@[(self.spec_index_3d(x, y, z) ^ self.spec_wrap_val(w)) as int]
    }

    /// Every hash lands inside the permutation table.
    pub proof fn lemma_hash_in_table(&self, x: u32, y: u32, z: u32, w: u32)
        requires
            self.wf(),
        ensures
            (self.spec_wrap_val(x) as int) < self.spec_permutations()@.len(),
            (self.spec_index_1d(x) as int) <= self.spec_mask(),
            ((self.spec_index_1d(x) ^ self.spec_wrap_val(y)) as int)
                < self.spec_permutations()@.len(),
            (self.spec_index_2d(x, y) as int) <= self.spec_mask(),
            ((self.spec_index_2d(x, y) ^ self.spec_wrap_val(z)) as int)
                < self.spec_permutations()@.len(),
            (self.spec_index_3d(x, y, z) as int) <= self.spec_mask(),
            ((self.spec_index_3d(x, y, z) ^ self.spec_wrap_val(w)) as int)
                < self.spec_permutations()@.len(),
    {
        let m = self.spec_mask();
        let len = self.spec_permutations()@.len();
        lemma_and_below_mask(x, m);
        lemma_and_below_mask(y, m);
        lemma_and_below_mask(z, m);
        lemma_and_below_mask(w, m);
        lemma_xor_below_mask(self.spec_index_1d(x), self.spec_wrap_val(y), m);
        lemma_xor_below_mask(self.spec_index_2d(x, y), self.spec_wrap_val(z), m);
        lemma_xor_below_mask(self.spec_index_3d(x, y, z), self.spec_wrap_val(w), m);
    }

    /// The default permutation-table size.
    pub fn default_permutation_size() -> (r: u32)
        ensures
            r == 256,
    {
        256
    }

    /// Round `size` up to the next power of two: the least power of two at
    /// least `size` (so below `2 * size` for a positive request).
    pub fn adjust_size(size: u32) -> (r: u32)
        requires
            size <= 0x8000_0000u32,
        ensures
            r >= size,
            r >= 1,
            is_low_mask((r - 1) as u32),
            size >= 1 ==> (r as int) < 2 * (size as int),
    {
        let mut pow: u32 = 1;
        proof {
            assert(is_low_mask(0u32)) by (bit_vector);
        }
        while pow < size
            invariant
                1 <= pow <= 0x8000_0000u32,
                is_low_mask((pow - 1) as u32),
                size <= 0x8000_0000u32,
                pow == 1 || (pow as int) < 2 * (size as int),
            decreases 2 * size - pow,
        {
            proof {
                let p = pow;
                assert(((2 * p - 1) as u64) & ((2 * p) as u64) == 0 && 2 * p
                    <= 0x8000_0000u32) by (bit_vector)
                    requires
                        (((p - 1) as u64) & (p as u64)) == 0,
                        1 <= p < 0x8000_0000u32,
                ;
            }
            pow = pow * 2;
        }
        pow
    }

    /// Build from a fresh default-sized permutation table and `size` builder
    /// gradients.
    pub fn new<B: GradientBuilder<G>>(
        rng: &mut rand::rngs::StdRng,
        builder: &mut B,
        size: u32,
    ) -> (result: Result<PermutedGradientTable<G>, NoiseError>)
        ensures
            match result {
                Ok(t) => size > 0 && t.wf() && t.spec_table()@.len() == size as int,
                Err(e) => size == 0 && e == NoiseError::ZeroSize,
            },
    {
        let table = match GradientTable::<G>::new(builder, size) {
            Ok(t) => t,
            Err(e) => {
                return Err(e);
            },
        };
        let permutations = match PermutationTable::new(rng, 256) {
            Ok(p) => p,
            Err(e) => {
                return Err(e);
            },
        };
        proof {
            assert(is_low_mask(255u32)) by (bit_vector);
        }
        Ok(PermutedGradientTable { table, permutations })
    }

    /// Build from a fresh default-sized permutation table and the given
    /// gradient values.
    pub fn from_values(rng: &mut rand::rngs::StdRng, values: Vec<G>) -> (result: Result<
        PermutedGradientTable<G>,
        NoiseError,
    >)
        ensures
            match result {
                Ok(t) => t.wf() && t.spec_table()@ == values@,
                Err(e) => {
                    ||| (e == NoiseError::ZeroSize && values@.len() == 0)
                    ||| (e == NoiseError::InvalidRange && exists|i: int|
                        0 <= i < values@.len() && !values@[i].gv_ok())
                },
            },
    {
        let table = match GradientTable::<G>::from_gradients(values) {
            Ok(t) => t,
            Err(e) => {
                return Err(e);
            },
        };
        let permutations = match PermutationTable::new(rng, 256) {
            Ok(p) => p,
            Err(e) => {
                return Err(e);
            },
        };
        proof {
            assert(is_low_mask(255u32)) by (bit_vector);
        }
        Ok(PermutedGradientTable { table, permutations })
    }

    /// Pair an existing permutation table with existing gradients. The
    /// permutation size must be a power of two.
    pub fn from_parts(permutations: PermutationTable, gradients: GradientTable<G>) -> (result:
        Result<PermutedGradientTable<G>, NoiseError>)
        requires
            permutations.wf(),
            gradients.wf(),
        ensures
            match result {
                Ok(t) => {
                    &&& t.wf()
                    &&& t.spec_permutations() == permutations
                    &&& t.spec_table() == gradients
                },
                Err(e) => e == NoiseError::InvalidRange && !is_low_mask(
                    (permutations@.len() - 1) as u32,
                ),
            },
    {
        let len = permutations.len();
        let mask: u64 = (len as u64) - 1;
        if mask & (mask + 1) != 0 {
            proof {
                assert((mask & ((mask + 1) as u64) != 0) == !is_low_mask(mask as u32)) by (bit_vector)
                    requires
                        mask < 0x1_0000_0000u64,
                ;
            }
            return Err(NoiseError::InvalidRange);
        }
        proof {
            assert((mask & ((mask + 1) as u64) == 0) == is_low_mask(mask as u32)) by (bit_vector)
                requires
                    mask < 0x1_0000_0000u64,
            ;
        }
        Ok(PermutedGradientTable { table: gradients, permutations })
    }

    /// Replace the permutation table with a freshly shuffled one whose size
    /// is the requested size rounded up to the least power of two, keeping
    /// the gradient table unchanged.
    pub fn with_permutation_table_size(self, rng: &mut rand::rngs::StdRng, size: u32) -> (result:
        Result<PermutedGradientTable<G>, NoiseError>)
        requires
            size > 0,
            size <= 0x8000_0000u32,
            self.wf(),
        ensures
            match result {
                Ok(t) => {
                    &&& t.wf()
                    &&& t.spec_table() == self.spec_table()
                    &&& t.spec_permutations().wf()
                    &&& size as int <= t.spec_permutations()@.len() < 2 * (size as int)
                    &&& is_low_mask((t.spec_permutations()@.len() - 1) as u32)
                },
                Err(e) => false,
            },
    {
        let adjusted = Self::adjust_size(size);
        let permutations = match PermutationTable::new(rng, adjusted) {
            Ok(p) => p,
            Err(e) => {
                return Err(e);
            },
        };
        Ok(PermutedGradientTable { table: self.table, permutations })
    }

    /// The wrapped gradient table.
    pub fn gradient_table(&self) -> (r: &GradientTable<G>)
        ensures
            r == self.spec_table(),
    {
        &self.table
    }

    /// The permutation table used by the hash.
    pub fn permutation_table(&self) -> (r: &PermutationTable)
        ensures
            r == self.spec_permutations(),
    {
        &self.permutations
    }

    /// An element-for-element copy of both parts.
    pub fn duplicate(&self) -> (r: PermutedGradientTable<G>)
        ensures
            r.spec_table()@ == self.spec_table()@,
            r.spec_permutations()@ == self.spec_permutations()@,
            self.wf() ==> r.wf(),
    {
        PermutedGradientTable {
            table: self.table.duplicate(),
            permutations: self.permutations.duplicate(),
        }
    }

    /// Wrap an axis coordinate to the permutation size.
    fn wrap_val(&self, val: u32) -> (r: u32)
        requires
            self.wf(),
        ensures
            r == self.spec_wrap_val(val),
            (r as int) < self.spec_permutations()@.len(),
    {
        proof {
            lemma_and_below_mask(val, self.spec_mask());
        }
        let mask: u32 = (self.permutations.len() - 1) as u32;
        val & mask
    }

    /// Hash a one-dimensional lattice coordinate.
    pub fn index_1d(&self, val: u32) -> (r: u32)
        requires
            self.wf(),
        ensures
            r == self.spec_index_1d(val),
            (r as int) < self.spec_permutations()@.len(),
    {
        let v = self.wrap_val(val);
        self.permutations.get(v)
    }

    /// Hash a two-dimensional lattice coordinate.
    pub fn index_2d(&self, val: Lattice2) -> (r: u32)
        requires
            self.wf(),
        ensures
            r == self.spec_index_2d(val.x, val.y),
            (r as int) < self.spec_permutations()@.len(),
    {
        proof {
            self.lemma_hash_in_table(val.x, val.y, 0, 0);
        }
        let v = self.wrap_val(val.y);
        let h = self.index_1d(val.x);
        self.permutations.get(h ^ v)
    }

    /// Hash a three-dimensional lattice coordinate.
    pub fn index_3d(&self, val: Lattice3) -> (r: u32)
        requires
            self.wf(),
        ensures
            r == self.spec_index_3d(val.x, val.y, val.z),
            (r as int) < self.spec_permutations()@.len(),
    {
        proof {
            self.lemma_hash_in_table(val.x, val.y, val.z, 0);
        }
        let v = self.wrap_val(val.z);
        let h = self.index_2d(Lattice2 { x: val.x, y: val.y });
        self.permutations.get(h ^ v)
    }

    /// Hash a four-dimensional lattice coordinate.
    pub fn index_4d(&self, val: Lattice3, w: u32) -> (r: u32)
        requires
            self.wf(),
        ensures
            r == self.spec_index_4d(val.x, val.y, val.z, w),
            (r as int) < self.spec_permutations()@.len(),
    {
        proof {
            self.lemma_hash_in_table(val.x, val.y, val.z, w);
        }
        let v = self.wrap_val(w);
        let h = self.index_3d(val);
        self.permutations.get(h ^ v)
    }
}

impl<G: GradientVector> GradientProvider<u32, G> for PermutedGradientTable<G> {
    open spec fn wf(&self) -> bool {
        PermutedGradientTable::wf(self)
    }

    open spec fn in_extent(&self, index: u32) -> bool {
        true
    }

    open spec fn spec_gradient(&self, index: u32) -> G {
        self.spec_table()@[(self.spec_index_1d(index) as int) % (self.spec_table()@.len() as int)]
    }

    open spec fn spec_max_dimensions(&self) -> Option<u32> {
        None
    }

    proof fn lemma_extent(&self, index: u32) {
    }

    proof fn lemma_gradient_ok(&self, index: u32) {
        vstd::arithmetic::div_mod::lemma_mod_bound(
            self.spec_index_1d(index) as int,
            self.spec_table()@.len() as int,
        );
    }

    fn get_gradient(&self, index: u32) -> (g: G) {
        let h = self.index_1d(index);
        self.table.get(h)
    }

    fn max_dimensions(&self) -> (d: Option<u32>) {
        None
    }
}

impl<G: GradientVector> GradientProvider<Lattice2, G> for PermutedGradientTable<G> {
    open spec fn wf(&self) -> bool {
        PermutedGradientTable::wf(self)
    }

    open spec fn in_extent(&self, index: Lattice2) -> bool {
        true
    }

    open spec fn spec_gradient(&self, index: Lattice2) -> G {
        self.spec_table()@[(self.spec_index_2d(index.x, index.y) as int) % (
        self.spec_table()@.len() as int)]
    }

    open spec fn spec_max_dimensions(&self) -> Option<Lattice2> {
        None
    }

    proof fn lemma_extent(&self, index: Lattice2) {
    }

    proof fn lemma_gradient_ok(&self, index: Lattice2) {
        vstd::arithmetic::div_mod::lemma_mod_bound(
            self.spec_index_2d(index.x, index.y) as int,
            self.spec_table()@.len() as int,
        );
    }

    fn get_gradient(&self, index: Lattice2) -> (g: G) {
        let h = self.index_2d(index);
        self.table.get(h)
    }

    fn max_dimensions(&self) -> (d: Option<Lattice2>) {
        None
    }
}

impl<G: GradientVector> GradientProvider<Lattice3, G> for PermutedGradientTable<G> {
    open spec fn wf(&self) -> bool {
        PermutedGradientTable::wf(self)
    }

    open spec fn in_extent(&self, index: Lattice3) -> bool {
        true
    }

    open spec fn spec_gradient(&self, index: Lattice3) -> G {
        self.spec_table()@[(self.spec_index_3d(index.x, index.y, index.z) as int) % (
        self.spec_table()@.len() as int)]
    }

    open spec fn spec_max_dimensions(&self) -> Option<Lattice3> {
        None
    }

    proof fn lemma_extent(&self, index: Lattice3) {
    }

    proof fn lemma_gradient_ok(&self, index: Lattice3) {
        vstd::arithmetic::div_mod::lemma_mod_bound(
            self.spec_index_3d(index.x, index.y, index.z) as int,
            self.spec_table()@.len() as int,
        );
    }

    fn get_gradient(&self, index: Lattice3) -> (g: G) {
        let h = self.index_3d(index);
        self.table.get(h)
    }

    fn max_dimensions(&self) -> (d: Option<Lattice3>) {
        None
    }
}

/// The sequence of the twelve classic two-dimensional cube gradients: the
/// four axis directions twice, then the four diagonals scaled to unit
/// length.
pub open spec fn spec_cube_gradients_2d() -> Seq<Point2> {
    seq![
        Point2 { x: ONE, y: 0 },
        Point2 { x: 0, y: (-ONE) as i64 },
        Point2 { x: (-ONE) as i64, y: 0 },
        Point2 { x: 0, y: ONE },
        Point2 { x: ONE, y: 0 },
        Point2 { x: 0, y: (-ONE) as i64 },
        Point2 { x: (-ONE) as i64, y: 0 },
        Point2 { x: 0, y: ONE },
        Point2 { x: FRAC_1_SQRT_2, y: FRAC_1_SQRT_2 },
        Point2 { x: FRAC_1_SQRT_2, y: (-FRAC_1_SQRT_2) as i64 },
        Point2 { x: (-FRAC_1_SQRT_2) as i64, y: (-FRAC_1_SQRT_2) as i64 },
        Point2 { x: (-FRAC_1_SQRT_2) as i64, y: FRAC_1_SQRT_2 },
    ]
}

/// A permuted gradient table holding the twelve classic cube gradients.
pub fn cube_gradient_table_2d(rng: &mut rand::rngs::StdRng) -> (result: Result<
    PermutedGradientTable<Point2>,
    NoiseError,
>)
    ensures
        match result {
            Ok(t) => t.wf() && t.spec_table()@ == spec_cube_gradients_2d(),
            Err(e) => false,
        },
{
    let mut values: Vec<Point2> = Vec::new();
    values.push(Point2 { x: ONE, y: 0 });
    values.push(Point2 { x: 0, y: -ONE });
    values.push(Point2 { x: -ONE, y: 0 });
    values.push(Point2 { x: 0, y: ONE });
    values.push(Point2 { x: ONE, y: 0 });
    values.push(Point2 { x: 0, y: -ONE });
    values.push(Point2 { x: -ONE, y: 0 });
    values.push(Point2 { x: 0, y: ONE });
    values.push(Point2 { x: FRAC_1_SQRT_2, y: FRAC_1_SQRT_2 });
    values.push(Point2 { x: FRAC_1_SQRT_2, y: -FRAC_1_SQRT_2 });
    values.push(Point2 { x: -FRAC_1_SQRT_2, y: -FRAC_1_SQRT_2 });
    values.push(Point2 { x: -FRAC_1_SQRT_2, y: FRAC_1_SQRT_2 });
    proof {
        assert(values@ =~= spec_cube_gradients_2d());
    }
    match PermutedGradientTable::from_values(rng, values) {
        Ok(t) => Ok(t),
        Err(e) => {
            proof {
                assert(forall|i: int|
                    0 <= i < spec_cube_gradients_2d().len()
                        ==> spec_cube_gradients_2d()[i].gv_ok());
                assert(false);
            }
            Err(e)
        },
    }
}

} // verus!
