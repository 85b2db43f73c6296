//! Seed derivation: the prompt bytes followed by the date's canonical
//! rendering are collapsed into a 32-byte SHA-256 digest.

use vstd::prelude::*;
use crate::date::{Date, date_ascii};
use sha2::Digest;

verus! {

/// The SHA-256 digest of a byte sequence, as sha2 computes it: a function of
/// the input bytes alone, 32 bytes long.
pub uninterp spec fn sha256_of(input: Seq<u8>) -> Seq<u8>;

/// Relies on sha2::Sha256 through `Digest::digest`: the digest is a function
/// of the input bytes alone and is exactly 32 bytes.
#[verifier::external_body]
fn sha256(input: &Vec<u8>) -> (r: [u8; 32])
    ensures
        r@ == sha256_of(input@),
{
    sha2::Sha256::digest(input.as_slice()).into()
}

/// The exact byte string fed to the hash: first the raw prompt bytes, then
/// the ten bytes of the date's `YYYY-MM-DD` rendering. The fixed order and
/// the fixed date format are the domain separation of the seed.
pub open spec fn seed_input(prompt: Seq<u8>, asof: Date) -> Seq<u8> {
    prompt + date_ascii(asof)
}

/// The 32-byte seed derived from a prompt and a date.
pub open spec fn seed_of(prompt: Seq<u8>, asof: Date) -> Seq<u8> {
    sha256_of(seed_input(prompt, asof))
}

/// Collapses (prompt, date) into the seed: the SHA-256 digest of the prompt
/// bytes followed by the date's canonical rendering.
pub fn derive_seed(prompt: &Vec<u8>, asof: &Date) -> (r: [u8; 32])
    requires
        asof.valid(),
    ensures
        r@ == seed_of(prompt@, *asof),
{
    let mut input: Vec<u8> = Vec::new();
    let mut i: usize = 0;
    while i < prompt.len()
        invariant
            i <= prompt.len(),
            input@ =~= prompt@.take(i as int),
        decreases prompt.len() - i,
    {
        input.push(prompt[i]);
        i = i + 1;
    }
    assert(input@ =~= prompt@);
    let mut tail = asof.ascii();
    input.append(&mut tail);
    assert(input@ =~= seed_input(prompt@, *asof));
    sha256(&input)
}

} // verus!
