//! Deterministic probe derivation for the filter.
//!
//! A value is turned into a sequence of probe indices as follows: for each
//! probe number `i`, the value is combined with `i` (an additive offset,
//! wrapping at the type's upper bound), the combined value's byte
//! representation is written to one process-wide hasher
//! (`std::collections::hash_map::DefaultHasher`), and the digest is reduced
//! modulo the bit-array length. One hasher instance serves a whole
//! operation and keeps its state across probes, so probe `i`'s digest
//! depends on the combined values of probes `0..=i`; a query writes the
//! identical sequence and therefore recomputes identical indices.
//!
//! Reducing the digest modulo the bit-array length lets every bit of the
//! array be targeted; reducing modulo the probe count instead would confine
//! all probes to the first few bits and waste the rest of the array.
use vstd::prelude::*;

use std::collections::hash_map::DefaultHasher;
use std::hash::Hasher;
use vstd::std_specs::hash::DefaultHasherAdditionalSpecFns;

verus! {

/// A value that can be combined with an unsigned probe offset to yield a
/// probe-specific variant of itself.
pub trait Offsettable: Sized {
    /// The combined value, as contracts see it.
    spec fn spec_offset(self, i: u32) -> Self;

    /// Combine `self` with the probe offset `i`.
    fn offset(&self, i: u32) -> (r: Self)
        ensures
            r == self.spec_offset(i),
    ;
}

/// A value with a deterministic byte representation that can be fed to the
/// process-wide hasher.
pub trait Hashable: Sized {
    /// The bytes that `feed` writes, as contracts see them.
    spec fn byte_repr(self) -> Seq<u8>;

    /// Write `self`'s byte representation to the hasher as one write call.
    fn feed(&self, h: &mut DefaultHasher)
        ensures
            final(h)@ == old(h)@.push(self.byte_repr()),
    ;
}

impl Offsettable for u32 {
    open spec fn spec_offset(self, i: u32) -> u32 {
        vstd::wrapping::u32_specs::wrapping_add(self, i)
    }

    fn offset(&self, i: u32) -> (r: u32) {
        self.wrapping_add(i)
    }
}

impl Hashable for u32 {
    open spec fn byte_repr(self) -> Seq<u8> {
        vstd::bytes::spec_u32_to_le_bytes(self)
    }

    fn feed(&self, h: &mut DefaultHasher) {
        let bytes: Vec<u8> = vstd::bytes::u32_to_le_bytes(*self);
        h.write(bytes.as_slice());
    }
}

impl Offsettable for u64 {
    open spec fn spec_offset(self, i: u32) -> u64 {
        vstd::wrapping::u64_specs::wrapping_add(self, i as u64)
    }

    fn offset(&self, i: u32) -> (r: u64) {
        self.wrapping_add(i as u64)
    }
}

impl Hashable for u64 {
    open spec fn byte_repr(self) -> Seq<u8> {
        vstd::bytes::spec_u64_to_le_bytes(self)
    }

    fn feed(&self, h: &mut DefaultHasher) {
        let bytes: Vec<u8> = vstd::bytes::u64_to_le_bytes(*self);
        h.write(bytes.as_slice());
    }
}

/// The hasher's write history after the probes numbered `0..n` of value `v`:
/// one write per probe, each holding the combined value's bytes.
pub open spec fn probe_history<T: Offsettable + Hashable>(v: T, n: int) -> Seq<Seq<u8>> {
    Seq::new(n as nat, |j: int| v.spec_offset(j as u32).byte_repr())
}

/// The bit index probed at step `i` for value `v` in a bit array of length
/// `m`: the digest of the write history through probe `i`, reduced modulo
/// `m`.
pub open spec fn spec_probe_index<T: Offsettable + Hashable>(v: T, i: int, m: nat) -> int
    recommends
        m > 0,
{
    DefaultHasher::spec_finish(probe_history(v, i + 1)) as int % (m as int)
}

} // verus!
