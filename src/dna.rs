use vstd::prelude::*;

verus! {

/// The `n` low bytes of `x`, least significant first.
pub open spec fn le_bytes(x: nat, n: nat) -> Seq<u8>
    decreases n,
{
    if n == 0 {
        Seq::empty()
    } else {
        seq![(x % 256) as u8] + le_bytes(x / 256, (n - 1) as nat)
    }
}

/// SCALE bytes of an optional `u32`: a tag byte, then the value little-endian.
pub open spec fn option_u32_bytes(v: Option<u32>) -> Seq<u8> {
    match v {
        None => seq![0u8],
        Some(i) => seq![1u8] + le_bytes(i as nat, 4),
    }
}

/// The bytes that are hashed to make a genetic code: the random seed, then the
/// owner's account id, then the index of the call within its block.
pub open spec fn dna_payload(seed: Seq<u8>, sender: u64, index: Option<u32>) -> Seq<u8> {
    seed + le_bytes(sender as nat, 8) + option_u32_bytes(index)
}

/// Blake2b with a 16-byte output, applied to `data`.
pub uninterp spec fn blake2_128_of(data: Seq<u8>) -> [u8; 16];

/// The genetic code drawn from a seed, an owner and a call index.
pub open spec fn dna_of(seed: Seq<u8>, sender: u64, index: Option<u32>) -> [u8; 16] {
    blake2_128_of(dna_payload(seed, sender, index))
}

/// Relies on parity_scale_codec's `Encode` for a triple: the three encodings back
/// to back, where a byte array is its bytes, a `u64` its eight little-endian
/// bytes, and an `Option` a tag byte 0 or 1 followed by the value's encoding.
#[verifier::external_body]
fn encode_payload(seed: &[u8; 32], sender: u64, index: Option<u32>) -> (r: Vec<u8>)
    ensures
        r@ == dna_payload(seed@, sender, index),
{
    parity_scale_codec::Encode::encode(&(seed, sender, index))
}

/// Relies on sp_io::hashing::blake2_128: Blake2b with a 16-byte output, which
/// depends on the input bytes alone.
#[verifier::external_body]
fn blake2_128(data: &Vec<u8>) -> (r: [u8; 16])
    ensures
        r == blake2_128_of(data@),
{
    sp_io::hashing::blake2_128(data.as_slice())
}

/// Derives a genetic code: the Blake2-128 hash of the SCALE encoding of the
/// seed, the owner and the call index, in that order.
pub fn generate_dna(seed: &[u8; 32], sender: u64, index: Option<u32>) -> (r: [u8; 16])
    ensures
        r == dna_of(seed@, sender, index),
{
    let payload = encode_payload(seed, sender, index);
    blake2_128(&payload)
}

} // verus!
