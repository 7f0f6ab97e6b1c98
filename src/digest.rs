//! The digest engine: SHA-256 over an encoding, packed as a 256-bit integer,
//! and its rendering as lowercase hex.
use crate::hex_text::{
    hex_decode, hex_lower, is_lower_hex_digit, lemma_hex_lower_well_formed, lemma_hex_round_trip,
};
use primitive_types::U256;
use sha2::{Digest, Sha256};
use vstd::prelude::*;

verus! {

#[verifier::external_type_specification]
#[verifier::external_body]
pub struct ExU256(U256);

/// What SHA-256 yields on a byte sequence.
pub uninterp spec fn sha256_of(data: Seq<u8>) -> Seq<u8>;

/// The 32 bytes of a 256-bit integer, most significant first.
pub uninterp spec fn u256_be_bytes(x: U256) -> Seq<u8>;

/// Relies on sha2's `Sha256::digest` (one update, then finalize) for the
/// 32-byte SHA-256 hash of the whole input.
#[verifier::external_body]
fn sha256(data: &[u8]) -> (r: [u8; 32])
    ensures
        r@ == sha256_of(data@),
{
    Sha256::digest(data).into()
}

/// Relies on primitive-types' `From<[u8; 32]> for U256`, which reads the
/// bytes most significant first (`from_big_endian`), so that writing the
/// integer back out big-endian gives the same bytes.
#[verifier::external_body]
fn u256_from_be(bytes: [u8; 32]) -> (r: U256)
    ensures
        u256_be_bytes(r) == bytes@,
{
    U256::from(bytes)
}

/// Relies on primitive-types' `U256::to_big_endian`: the integer's 32 bytes,
/// most significant first.
#[verifier::external_body]
fn u256_to_be(x: &U256) -> (r: [u8; 32])
    ensures
        r@ == u256_be_bytes(*x),
{
    let mut bytes = [0u8; 32];
    x.to_big_endian(&mut bytes);
    bytes
}

/// Relies on `hex::encode`: two lowercase digits per byte, high nibble
/// first, in the order of the bytes.
#[verifier::external_body]
fn encode_hex(bytes: &[u8; 32]) -> (r: String)
    ensures
        r@ == hex_lower(bytes@),
{
    hex::encode(bytes)
}

/// A 256-bit digest. Its view is its 32-byte big-endian representation.
#[derive(Debug)]
pub struct Hash(U256);

impl View for Hash {
    type V = Seq<u8>;

    closed spec fn view(&self) -> Seq<u8> {
        u256_be_bytes(self.0)
    }
}

impl Hash {
    #[verifier::type_invariant]
    spec fn well_formed(&self) -> bool {
        self@.len() == 32
    }

    /// The digest as 64 lowercase hex digits, most significant byte first.
    pub fn to_hex(&self) -> (r: String)
        ensures
            r@ == hex_lower(self@),
            r@.len() == 64,
            forall|i: int| 0 <= i < r@.len() ==> #[trigger] is_lower_hex_digit(r@[i]),
    {
        proof {
            use_type_invariant(self);
            lemma_hex_lower_well_formed(self@);
        }
        let bytes = u256_to_be(&self.0);
        encode_hex(&bytes)
    }
}

/// The digest of an encoded value: its SHA-256 hash, read as a big-endian
/// 256-bit integer.
pub fn hash_encoded(encoded: &[u8]) -> (r: Hash)
    ensures
        r@ == sha256_of(encoded@),
{
    let bytes = sha256(encoded);
    let value = u256_from_be(bytes);
    Hash(value)
}

/// The digest depends on the encoding alone: two digests of the same
/// encoding are equal and render to the same hex string.
pub proof fn lemma_digest_deterministic(h1: Hash, h2: Hash, encoded: Seq<u8>)
    requires
        h1@ == sha256_of(encoded),
        h2@ == sha256_of(encoded),
    ensures
        h1@ == h2@,
        hex_lower(h1@) == hex_lower(h2@),
{
}

/// Reading the hex rendering of a digest back gives exactly the bytes that
/// SHA-256 produced on the encoding, in their order.
pub proof fn lemma_rendering_recovers_hash(h: Hash, encoded: Seq<u8>)
    requires
        h@ == sha256_of(encoded),
    ensures
        hex_decode(hex_lower(h@)) == sha256_of(encoded),
{
    lemma_hex_round_trip(h@);
}

} // verus!
