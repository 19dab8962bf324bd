//! The filter itself: a fixed-length bit array plus a fixed probe count.
use vstd::prelude::*;

use crate::hashing::{probe_history, spec_probe_index, Hashable, Offsettable};
use std::collections::hash_map::DefaultHasher;
use std::hash::Hasher;
use vstd::std_specs::hash::DefaultHasherAdditionalSpecFns;

verus! {

/// An all-clear bit array of length `m`.
pub open spec fn all_clear(m: nat) -> Seq<bool> {
    Seq::new(m, |j: int| false)
}

/// Whether some probe among `0..k` of value `v` targets bit `j` in a bit
/// array of length `m`.
pub open spec fn is_probe_target<T: Offsettable + Hashable>(v: T, k: u32, m: nat, j: int) -> bool {
    exists|i: int| 0 <= i < k && spec_probe_index(v, i, m) == j
}

/// The bit array after inserting `v` with probe count `k`: every bit that
/// some probe of `v` targets is set, and every other bit keeps its value.
pub open spec fn spec_add<T: Offsettable + Hashable>(bits: Seq<bool>, k: u32, v: T) -> Seq<bool> {
    Seq::new(bits.len(), |j: int| bits[j] || is_probe_target(v, k, bits.len(), j))
}

/// Whether a query for `v` with probe count `k` answers `true` on the bit
/// array `bits`: every probed bit is set. Vacuously `true` when `k == 0`.
pub open spec fn spec_contains<T: Offsettable + Hashable>(bits: Seq<bool>, k: u32, v: T) -> bool {
    forall|i: int| 0 <= i < k ==> bits[#[trigger] spec_probe_index(v, i, bits.len())]
}

/// A fixed-capacity probabilistic set-membership filter.
///
/// The bit-array length and the probe count are fixed at construction.
/// Bits are only ever set, never cleared. A probe count of zero is
/// degenerate: insertion then touches no bits and every query answers
/// `true` ("always reports present").
pub struct BloomFilter {
    filter: Vec<bool>,
    num_hashes: u32,
}

impl BloomFilter {
    /// The bit array, as contracts see it.
    pub closed spec fn bits(&self) -> Seq<bool> {
        self.filter@
    }

    /// The probe count, as contracts see it.
    pub closed spec fn k(&self) -> u32 {
        self.num_hashes
    }

    /// A filter is well formed when its bit array is non-empty; probe
    /// indices are reduced modulo the bit-array length, so a length of
    /// zero would leave them undefined.
    pub open spec fn wf(&self) -> bool {
        self.bits().len() > 0
    }

    /// Build a filter with `m` cleared bits and probe count `k`.
    pub fn new(m: usize, k: u32) -> (r: BloomFilter)
        requires
            m > 0,
        ensures
            r.bits() == all_clear(m as nat),
            r.k() == k,
            r.wf(),
    {
        let mut filter: Vec<bool> = Vec::new();
        let mut j: usize = 0;
        while j < m
            invariant
                j <= m,
                filter@.len() == j,
                forall|p: int| 0 <= p < j ==> !filter@[p],
            decreases m - j,
        {
            filter.push(false);
            j = j + 1;
        }
        proof {
            assert(filter@ =~= all_clear(m as nat));
        }
        BloomFilter { filter, num_hashes: k }
    }

    /// Insert `value`: derive one bit index per probe and set that bit.
    /// Every bit already set stays set, and the bit-array length and the
    /// probe count are unchanged.
    pub fn add<T: Offsettable + Hashable>(&mut self, value: &T)
        requires
            old(self).wf(),
        ensures
            final(self).bits() == spec_add(old(self).bits(), old(self).k(), *value),
            final(self).k() == old(self).k(),
    {
        let m: usize = self.filter.len();
        let k: u32 = self.num_hashes;
        let ghost orig: Seq<bool> = self.filter@;
        let mut h: DefaultHasher = DefaultHasher::new();
        let mut i: u32 = 0;
        while i < k
            invariant
                i <= k,
                0 < m,
                self.filter@.len() == m,
                self.num_hashes == k,
                orig.len() == m,
                h@ == probe_history(*value, i as int),
                forall|j: int|
                    0 <= j < m ==> self.filter@[j] == (orig[j] || (exists|p: int|
                        0 <= p < i && #[trigger] spec_probe_index(*value, p, m as nat) == j)),
            decreases k - i,
        {
            let q: T = value.offset(i);
            q.feed(&mut h);
            let digest: u64 = h.finish();
            let idx: usize = (digest % (m as u64)) as usize;
            proof {
                assert(h@ =~= probe_history(*value, i as int + 1));
                assert(idx as int == spec_probe_index(*value, i as int, m as nat));
            }
            let ghost before: Seq<bool> = self.filter@;
            proof {
                assert(forall|j: int|
                    0 <= j < m ==> before[j] == (orig[j] || (exists|p: int|
                        0 <= p < i && #[trigger] spec_probe_index(*value, p, m as nat) == j)));
            }
            self.filter[idx] = true;
            proof {
                assert(self.filter@ == before.update(idx as int, true));
                assert forall|j: int|
                    0 <= j < m implies self.filter@[j] == (orig[j] || (exists|p: int|
                        0 <= p < i + 1 && #[trigger] spec_probe_index(*value, p, m as nat)
                            == j)) by {
                    assert(before[j] == (orig[j] || (exists|p: int|
                        0 <= p < i && #[trigger] spec_probe_index(*value, p, m as nat) == j)));
                    if j == idx {
                        assert(self.filter@[j]);
                        assert(0 <= i < i + 1 && spec_probe_index(*value, i as int, m as nat)
                            == j);
                    } else {
                        assert(self.filter@[j] == before[j]);
                        if exists|p: int|
                            0 <= p < i + 1 && #[trigger] spec_probe_index(*value, p, m as nat)
                                == j {
                            let p = choose|p: int|
                                0 <= p < i + 1 && #[trigger] spec_probe_index(
                                    *value,
                                    p,
                                    m as nat,
                                ) == j;
                            assert(p != i);
                            assert(0 <= p < i && spec_probe_index(*value, p, m as nat) == j);
                        }
                    }
                }
            }
            i = i + 1;
        }
        proof {
            assert(self.filter@ =~= spec_add(orig, k, *value));
        }
    }

    /// Query `value`: derive the same bit indices that insertion would and
    /// answer `true` exactly when every one of those bits is set. A `false`
    /// answer is certain; a `true` answer is only probabilistic evidence
    /// of membership. No mutation.
    pub fn may_contain<T: Offsettable + Hashable>(&self, value: &T) -> (r: bool)
        requires
            self.wf(),
        ensures
            r == spec_contains(self.bits(), self.k(), *value),
    {
        let m: usize = self.filter.len();
        let k: u32 = self.num_hashes;
        let mut h: DefaultHasher = DefaultHasher::new();
        let mut i: u32 = 0;
        while i < k
            invariant
                i <= k,
                0 < m,
                self.filter@.len() == m,
                self.num_hashes == k,
                h@ == probe_history(*value, i as int),
                forall|p: int|
                    0 <= p < i ==> self.filter@[#[trigger] spec_probe_index(
                        *value,
                        p,
                        m as nat,
                    )],
            decreases k - i,
        {
            let q: T = value.offset(i);
            q.feed(&mut h);
            let digest: u64 = h.finish();
            let idx: usize = (digest % (m as u64)) as usize;
            proof {
                assert(h@ =~= probe_history(*value, i as int + 1));
                assert(idx as int == spec_probe_index(*value, i as int, m as nat));
            }
            if !self.filter[idx] {
                proof {
                    assert(!self.filter@[spec_probe_index(*value, i as int, m as nat)]);
                }
                return false;
            }
            i = i + 1;
        }
        true
    }
}

/// The bit array after inserting, in order, every value of `vs` with probe
/// count `k`, starting from `bits`.
pub open spec fn spec_add_all<T: Offsettable + Hashable>(
    bits: Seq<bool>,
    k: u32,
    vs: Seq<T>,
) -> Seq<bool>
    decreases vs.len(),
{
    if vs.len() == 0 {
        bits
    } else {
        spec_add_all(spec_add(bits, k, vs[0]), k, vs.subrange(1, vs.len() as int))
    }
}

/// Law (no false negatives): inserting a value makes a query for that same
/// value answer `true` on the resulting bit array.
pub proof fn lemma_no_false_negative<T: Offsettable + Hashable>(bits: Seq<bool>, k: u32, v: T)
    requires
        bits.len() > 0,
    ensures
        spec_contains(spec_add(bits, k, v), k, v),
{
    let m = bits.len();
    let grown = spec_add(bits, k, v);
    assert(grown.len() == m);
    assert forall|i: int| 0 <= i < k implies grown[#[trigger] spec_probe_index(v, i, m)] by {
        let j = spec_probe_index(v, i, m);
        assert(0 <= j < m);
        assert(is_probe_target(v, k, m, j));
    }
}

/// Law (monotonicity): bits are never cleared, so a query that answers
/// `true` keeps answering `true` after any further insertion, whatever
/// value — of whatever type — is inserted.
pub proof fn lemma_query_stable_under_insert<T: Offsettable + Hashable, W: Offsettable + Hashable>(
    bits: Seq<bool>,
    k: u32,
    v: T,
    w: W,
)
    requires
        bits.len() > 0,
        spec_contains(bits, k, v),
    ensures
        spec_contains(spec_add(bits, k, w), k, v),
{
    let m = bits.len();
    let grown = spec_add(bits, k, w);
    assert(grown.len() == m);
    assert forall|i: int| 0 <= i < k implies grown[#[trigger] spec_probe_index(v, i, m)] by {
        let j = spec_probe_index(v, i, m);
        assert(0 <= j < m);
        assert(bits[j]);
    }
}

/// Law (monotonicity over whole insertion sequences): a query that answers
/// `true` keeps answering `true` after any further sequence of insertions.
pub proof fn lemma_query_stable_under_inserts<
    T: Offsettable + Hashable,
    W: Offsettable + Hashable,
>(bits: Seq<bool>, k: u32, v: T, ws: Seq<W>)
    requires
        bits.len() > 0,
        spec_contains(bits, k, v),
    ensures
        spec_contains(spec_add_all(bits, k, ws), k, v),
    decreases ws.len(),
{
    if ws.len() > 0 {
        lemma_query_stable_under_insert(bits, k, v, ws[0]);
        lemma_query_stable_under_inserts(
            spec_add(bits, k, ws[0]),
            k,
            v,
            ws.subrange(1, ws.len() as int),
        );
    }
}

/// Law (no false negatives, through later insertions): once `v` is
/// inserted, a query for `v` answers `true` however many other values are
/// inserted in between.
pub proof fn lemma_no_false_negative_later<
    T: Offsettable + Hashable,
    W: Offsettable + Hashable,
>(bits: Seq<bool>, k: u32, v: T, ws: Seq<W>)
    requires
        bits.len() > 0,
    ensures
        spec_contains(spec_add_all(spec_add(bits, k, v), k, ws), k, v),
{
    lemma_no_false_negative(bits, k, v);
    lemma_query_stable_under_inserts(spec_add(bits, k, v), k, v, ws);
}

/// Law (empty-filter correctness): with a positive bit-array length and a
/// positive probe count, a query on an all-clear bit array answers `false`
/// for every value.
pub proof fn lemma_empty_contains_nothing<T: Offsettable + Hashable>(m: nat, k: u32, v: T)
    requires
        m > 0,
        k > 0,
    ensures
        !spec_contains(all_clear(m), k, v),
{
    let bits = all_clear(m);
    assert(bits.len() == m);
    let j = spec_probe_index(v, 0, bits.len());
    assert(0 <= j < m);
    assert(!bits[j]);
    if spec_contains(bits, k, v) {
        assert(bits[spec_probe_index(v, 0, bits.len())]);
        assert(false);
    }
}

/// Law (determinism): two filters built with the same bit-array length and
/// probe count that receive the same insertions hold the same bit array
/// and answer every query alike.
pub proof fn lemma_deterministic<T: Offsettable + Hashable, Q: Offsettable + Hashable>(
    m1: nat,
    m2: nat,
    k1: u32,
    k2: u32,
    vs1: Seq<T>,
    vs2: Seq<T>,
    q: Q,
)
    requires
        m1 == m2,
        k1 == k2,
        vs1 == vs2,
    ensures
        spec_add_all(all_clear(m1), k1, vs1) == spec_add_all(all_clear(m2), k2, vs2),
        spec_contains(spec_add_all(all_clear(m1), k1, vs1), k1, q) == spec_contains(
            spec_add_all(all_clear(m2), k2, vs2),
            k2,
            q,
        ),
{
}

} // verus!
