use vstd::prelude::*;

verus! {

/// A field element of the STARK field, carried as its 32-byte big-endian
/// image. The library never computes with field elements; it stores them,
/// moves them between the account's regions, and compares them for
/// byte-for-byte equality. All field arithmetic is performed by the
/// cryptographic executor outside the library.
#[derive(Debug, Clone, Copy, PartialEq, Eq)]
pub struct Felt(pub [u8; 32]);

} // verus!
