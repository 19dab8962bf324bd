//! A fixed-capacity probabilistic set-membership filter (a Bloom filter).
//!
//! The filter owns a bit array of length chosen at construction and a fixed
//! probe count `k`. Inserting a value sets `k` bits at indices derived from
//! the value; querying re-derives the same indices and answers `true` only
//! when every one of them is set. `false` is therefore a certain answer
//! (the value was never inserted), while `true` is only probabilistic
//! evidence of membership: distinct values may collide on the same bits.
//!
//! Bits are never cleared, the bit array never changes length, and there is
//! no deletion, resizing or persistence.

pub mod filter;
pub mod hashing;
