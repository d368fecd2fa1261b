//! Pseudo-randomly shuffled index tables.

use vstd::prelude::*;

verus! {

use vstd::pervasive::VecAdditionalExecFns;
use crate::error::NoiseError;

/// A shuffled table of the indices `0 .. size`, used to hash lattice
/// coordinates into gradient-table indices.
///
/// Invariant (`wf`): the table is non-empty and holds a permutation of
/// `0 .. size`: every entry lies below `size` and no entry repeats.
/// The table is never mutated after construction.
#[derive(Clone, Debug)]
pub struct PermutationTable {
    table: Vec<u32>,
}

impl View for PermutationTable {
    type V = Seq<u32>;

    closed spec fn view(&self) -> Seq<u32> {
        self.table@
    }
}

impl PermutationTable {
    /// The table holds a permutation of `0 .. len`.
    pub open spec fn wf(&self) -> bool {
        &&& 0 < self@.len() <= u32::MAX
        &&& forall|i: int| 0 <= i < self@.len() ==> (self@[i] as int) < self@.len()
        &&& forall|i: int, j: int|
            0 <= i < j < self@.len() ==> self@[i] != self@[j]
    }

    /// Build a table of `size` entries: the identity table `0 .. size`
    /// shuffled by a Fisher-Yates pass over the supplied random source.
    /// A zero size is rejected.
    pub fn new(rng: &mut rand::rngs::StdRng, size: u32) -> (result: Result<
        PermutationTable,
        NoiseError,
    >)
        ensures
            match result {
                Ok(t) => size > 0 && t.wf() && t@.len() == size as int,
                Err(e) => size == 0 && e == NoiseError::ZeroSize,
            },
    {
        if size == 0 {
            return Err(NoiseError::ZeroSize);
        }
        let mut table: Vec<u32> = Vec::new();
        let mut i: u32 = 0;
        while i < size
            invariant
                i <= size,
                table@.len() == i as int,
                forall|k: int| 0 <= k < i as int ==> table@[k] == k,
            decreases size - i,
        {
            table.push(i);
            i = i + 1;
        }
        let mut j: u32 = size;
        while j > 1
            invariant
                1 <= j <= size,
                table@.len() == size as int,
                forall|k: int| 0 <= k < size as int ==> (table@[k] as int) < size as int,
                forall|k: int, l: int| 0 <= k < l < size as int ==> table@[k] != table@[l],
            decreases j,
        {
            let k = crate::random::rand_below(rng, j);
            let a: u32 = table[(j - 1) as usize];
            let b: u32 = table[k as usize];
            table.set((j - 1) as usize, b);
            table.set(k as usize, a);
            j = j - 1;
        }
        Ok(PermutationTable { table })
    }

    /// The shuffled indices, in table order.
    pub fn values(&self) -> (r: &[u32])
        ensures
            r@ == self@,
    {
        self.table.as_slice()
    }

    /// The number of entries.
    pub fn len(&self) -> (r: usize)
        ensures
            r == self@.len(),
    {
        self.table.len()
    }

    /// An element-for-element copy of the table.
    pub fn duplicate(&self) -> (r: PermutationTable)
        ensures
            r@ == self@,
    {
        let mut table: Vec<u32> = Vec::new();
        let mut i: usize = 0;
        while i < self.table.len()
            invariant
                i <= self@.len(),
                table@ == self@.subrange(0, i as int),
            decreases self@.len() - i,
        {
            table.push(self.table[i]);
            proof {
                assert(table@ =~= self@.subrange(0, i as int + 1));
            }
            i = i + 1;
        }
        proof {
            assert(table@ =~= self@);
        }
        PermutationTable { table }
    }

    /// Read one entry. The index must already be reduced modulo the table
    /// size; the entry read is again below the table size.
    pub fn get(&self, index: u32) -> (r: u32)
        requires
            self.wf(),
            (index as int) < self@.len(),
        ensures
            r == self@[index as int],
            (r as int) < self@.len(),
    {
        self.table[index as usize]
    }
}


/// Law: a well-formed permutation table is a bijection on `0 .. len`. Its
/// entries lie below the length and never repeat (the `wf` invariant), and
/// by counting, every index below the length also appears somewhere.
pub proof fn lemma_permutation_is_bijection(t: &PermutationTable, v: u32)
    requires
        t.wf(),
        (v as int) < t@.len(),
    ensures
        exists|i: int| 0 <= i < t@.len() && t@[i] == v,
{
    let n = t@.len() as int;
    let s = t@.map_values(|x: u32| x as int);
    assert(s.no_duplicates()) by {
        assert forall|i: int, j: int| 0 <= i < s.len() && 0 <= j < s.len() && i != j implies s[i]
            != s[j] by {
            if i < j {
                assert(t@[i] != t@[j]);
            } else {
                assert(t@[j] != t@[i]);
            }
        }
    }
    s.unique_seq_to_set();
    let occupied = s.to_set();
    let range = vstd::set_lib::set_int_range(0, n);
    vstd::set_lib::lemma_int_range(0, n);
    assert(occupied.subset_of(range)) by {
        assert forall|x: int| occupied.contains(x) implies range.contains(x) by {
            let i = choose|i: int| 0 <= i < s.len() && s[i] == x;
            assert(0 <= t@[i] < n);
        }
    }
    vstd::set_lib::lemma_subset_equality(occupied, range);
    assert(range.contains(v as int));
    assert(occupied.contains(v as int));
    let i = choose|i: int| 0 <= i < s.len() && s[i] == v as int;
    assert(t@[i] == v);
}

} // verus!
