//! Bytes drawn at random.

use vstd::prelude::*;

verus! {

/// How many bytes are drawn at a time.
pub const BLOCK_LENGTH: usize = 32;

/// `rand::random` at the type of an array of `BLOCK_LENGTH` bytes: bytes
/// drawn at random, of which nothing but their number is known.
#[verifier::external_body]
pub(crate) fn random_block() -> (block: Vec<u8>)
    ensures
        block@.len() == BLOCK_LENGTH,
{
    rand::random::<[u8; BLOCK_LENGTH]>().to_vec()
}

/// The first `count` bytes of `bytes`.
pub(crate) fn first_bytes(bytes: &Vec<u8>, count: usize) -> (r: Vec<u8>)
    requires
        count <= bytes@.len(),
    ensures
        r@ == bytes@.subrange(0, count as int),
{
    let mut taken: Vec<u8> = Vec::new();
    let mut i: usize = 0;
    while i < count
        invariant
            i <= count <= bytes@.len(),
            taken@ == bytes@.subrange(0, i as int),
        decreases count - i,
    {
        taken.push(bytes[i]);
        assert(taken@ =~= bytes@.subrange(0, i + 1));
        i = i + 1;
    }
    taken
}

} // verus!
