//! When the miner sends a decoy payload: a proof of work on random bytes.

use vstd::prelude::*;

verus! {

/// How many bytes of a hash must be zero, from its start, for a payload to
/// be sent.
pub const TARGET_ZERO_BYTES: usize = 3;

/// The bytes that are drawn and hashed at each attempt.
pub const BLOCK_LEN: usize = 32;

/// The SHA-256 hash of `data`.
pub uninterp spec fn sha256(data: Seq<u8>) -> Seq<u8>;

/// Hashes `data` with `sha2::Sha256::digest`. The hash is a function of the
/// data alone and is 32 bytes long, the output size of SHA-256.
#[verifier::external_body]
fn sha256_digest(data: &[u8]) -> (hash: Vec<u8>)
    ensures
        hash@ == sha256(data@),
        hash@.len() == 32,
{
    <sha2::Sha256 as sha2::Digest>::digest(data).to_vec()
}

/// Draws 32 bytes from the thread's random number generator, with
/// `rand::thread_rng` and `Rng::gen`. Nothing is claimed of the bytes.
#[verifier::external_body]
fn random_block() -> (block: [u8; 32]) {
    rand::Rng::gen::<[u8; 32]>(&mut rand::thread_rng())
}

/// Whether a hash is good enough for a payload to be sent: it starts with
/// three zero bytes.
pub open spec fn meets_target(hash: Seq<u8>) -> bool {
    hash.len() >= TARGET_ZERO_BYTES && hash[0] == 0 && hash[1] == 0 && hash[2] == 0
}

/// Tells whether a hash starts with three zero bytes.
pub fn hash_meets_target(hash: &[u8]) -> (r: bool)
    ensures
        r == meets_target(hash@),
{
    hash.len() >= TARGET_ZERO_BYTES && hash[0] == 0 && hash[1] == 0 && hash[2] == 0
}

/// Tells whether the SHA-256 hash of `block` starts with three zero bytes.
pub fn block_meets_target(block: &[u8]) -> (r: bool)
    ensures
        r == meets_target(sha256(block@)),
{
    let hash = sha256_digest(block);
    hash_meets_target(hash.as_slice())
}

/// One attempt of the miner: draws 32 random bytes and tells whether their
/// SHA-256 hash starts with three zero bytes. The answer is that of
/// `block_meets_target` for the bytes that were drawn.
pub fn should_send_payload() -> (send: bool)
    ensures
        exists|block: Seq<u8>| block.len() == BLOCK_LEN && send == meets_target(sha256(block)),
{
    let block = random_block();
    let send = block_meets_target(block.as_slice());
    assert(block@.len() == BLOCK_LEN && send == meets_target(sha256(block@)));
    send
}

} // verus!
