//! Entry-point identifiers.

use vstd::prelude::*;

verus! {

/// The BLAKE2b digest of `input` with a 256-bit output, as a sequence of 32 bytes.
pub uninterp spec fn blake2x256(input: Seq<u8>) -> Seq<u8>;

/// Calls `ink::env::hash::CryptoHash::hash` for `Blake2x256`, which hashes
/// `input` with BLAKE2b and writes the 32 bytes of the digest into the buffer
/// it is given. Trusted: the buffer then holds `blake2x256` of the input.
#[verifier::external_body]
fn blake2x256_digest(input: &[u8]) -> (digest: [u8; 32])
    ensures
        digest@ == blake2x256(input@),
{
    let mut digest = [0u8; 32];
    <ink::env::hash::Blake2x256 as ink::env::hash::CryptoHash>::hash(input, &mut digest);
    digest
}

/// The identifier that a digest yields: its first four bytes.
pub open spec fn selector_of_digest(digest: Seq<u8>) -> Seq<u8> {
    digest.subrange(0, 4)
}

/// The identifier of the entry point named `name`.
pub open spec fn selector_of_name(name: Seq<u8>) -> Seq<u8> {
    selector_of_digest(blake2x256(name))
}

/// The bytes of the name `flip`.
pub open spec fn flip_name() -> Seq<u8> {
    seq![0x66u8, 0x6cu8, 0x69u8, 0x70u8]
}

/// Selects an entry point of foreign code.
#[derive(Clone, Copy, Debug, PartialEq, Eq)]
pub struct Selector {
    pub bytes: [u8; 4],
}

impl Selector {
    /// Truncates a digest to an identifier.
    pub fn from_digest(digest: &[u8; 32]) -> (selector: Selector)
        ensures
            selector.bytes@ == selector_of_digest(digest@),
    {
        let selector = Selector { bytes: [digest[0], digest[1], digest[2], digest[3]] };
        assert(selector.bytes@ =~= digest@.subrange(0, 4));
        selector
    }

    /// Derives the identifier of the entry point published under `name`.
    pub fn from_name(name: &[u8]) -> (selector: Selector)
        ensures
            selector.bytes@ == selector_of_name(name@),
    {
        let digest = blake2x256_digest(name);
        Selector::from_digest(&digest)
    }

    /// The identifier of the entry point `flip`.
    pub fn flip() -> (selector: Selector)
        ensures
            selector.bytes@ == selector_of_name(flip_name()),
    {
        let name: [u8; 4] = [0x66, 0x6c, 0x69, 0x70];
        assert(name@ =~= flip_name());
        Selector::from_name(name.as_slice())
    }
}

} // verus!
