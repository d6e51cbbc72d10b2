//! The compute-burning primitive: BLAKE2b-512 over a buffer that is absorbed
//! many times before the digest is taken.

use blake2::{Blake2b512, Digest};
use vstd::prelude::*;

verus! {

/// Length in bytes of a BLAKE2b-512 digest, and of the buffer that the
/// compute phase feeds from one iteration into the next.
pub const DIGEST_LEN: usize = 64;

/// A running BLAKE2b-512 computation of the `blake2` crate.
///
/// Its state is hidden from the verifier; what is known of it is the byte
/// string it has absorbed so far, [`absorbed`].
#[verifier::external_body]
pub struct Hasher {
    state: Blake2b512,
}

/// The bytes that a hasher has absorbed since it was created, in order.
pub uninterp spec fn absorbed(h: Hasher) -> Seq<u8>;

/// The BLAKE2b-512 digest of a message.
pub uninterp spec fn blake2b512(message: Seq<u8>) -> Seq<u8>;

/// `Blake2b512::new`: a fresh hasher has absorbed nothing.
#[verifier::external_body]
fn hasher_new() -> (h: Hasher)
    ensures
        absorbed(h) == Seq::<u8>::empty(),
{
    Hasher { state: Blake2b512::new() }
}

/// `Digest::update` on a `Blake2b512`: the data is appended to what the
/// hasher has absorbed.
#[verifier::external_body]
fn hasher_update(h: &mut Hasher, data: &[u8])
    ensures
        absorbed(*final(h)) == absorbed(*old(h)) + data@,
{
    h.state.update(data)
}

/// `Digest::finalize` on a `Blake2b512`: the result is the digest of all that
/// was absorbed, and it is 64 bytes long.
#[verifier::external_body]
fn hasher_finalize(h: Hasher) -> (out: Vec<u8>)
    ensures
        out@ == blake2b512(absorbed(h)),
        out@.len() == DIGEST_LEN,
{
    h.state.finalize().to_vec()
}

/// `block` written `times` times in a row.
pub open spec fn repeated(block: Seq<u8>, times: nat) -> Seq<u8>
    decreases times,
{
    if times == 0 {
        Seq::empty()
    } else {
        repeated(block, (times - 1) as nat) + block
    }
}

/// The digest that one call of the primitive computes: `clobber` absorbed
/// `i` times.
pub open spec fn ref_time_iter_digest(clobber: Seq<u8>, i: nat) -> Seq<u8> {
    blake2b512(repeated(clobber, i))
}

/// Burns compute time: absorbs `clobber` into one BLAKE2b-512 computation `i`
/// times and returns the digest.
///
/// The digest depends on every byte absorbed, so none of the `i` rounds can
/// be left out.
pub fn waste_ref_time_iter(clobber: Vec<u8>, i: u32) -> (out: Vec<u8>)
    ensures
        out@ == ref_time_iter_digest(clobber@, i as nat),
        out@.len() == DIGEST_LEN,
{
    let mut hasher = hasher_new();
    let mut round: u32 = 0;
    while round < i
        invariant
            round <= i,
            absorbed(hasher) == repeated(clobber@, round as nat),
        decreases i - round,
    {
        hasher_update(&mut hasher, clobber.as_slice());
        round = round + 1;
    }
    hasher_finalize(hasher)
}

} // verus!
