//! Derivation of the proof-of-work byte sequence and its quality metric.
use vstd::prelude::*;

verus! {

/// The four big-endian bytes of a 32-bit value.
pub open spec fn be_bytes_u32(x: u32) -> Seq<u8> {
    seq![(x >> 24u32) as u8, (x >> 16u32) as u8, (x >> 8u32) as u8, x as u8]
}

/// The eight big-endian bytes of a 64-bit value.
pub open spec fn be_bytes_u64(x: u64) -> Seq<u8> {
    seq![
        (x >> 56u64) as u8,
        (x >> 48u64) as u8,
        (x >> 40u64) as u8,
        (x >> 32u64) as u8,
        (x >> 24u64) as u8,
        (x >> 16u64) as u8,
        (x >> 8u64) as u8,
        x as u8,
    ]
}

/// The byte sequence of a work attempt: session index, nonce and entropy,
/// each big-endian, in that order.
pub open spec fn digest_of(farm_index: u32, nonce: u64, entropy: u64) -> Seq<u8> {
    be_bytes_u32(farm_index) + be_bytes_u64(nonce) + be_bytes_u64(entropy)
}

/// Leading-zero run at nibble granularity: every leading zero byte counts 2,
/// and the first non-zero byte adds 1 when its high nibble is zero.
pub open spec fn zero_run(s: Seq<u8>) -> nat
    decreases s.len(),
{
    if s.len() == 0 {
        0
    } else if s[0] == 0 {
        2 + zero_run(s.drop_first())
    } else if s[0] < 16 {
        1
    } else {
        0
    }
}

fn push_u64_be(data: &mut Vec<u8>, x: u64)
    ensures
        final(data)@ == old(data)@ + be_bytes_u64(x),
{
    data.push((x >> 56u64) as u8);
    data.push((x >> 48u64) as u8);
    data.push((x >> 40u64) as u8);
    data.push((x >> 32u64) as u8);
    data.push((x >> 24u64) as u8);
    data.push((x >> 16u64) as u8);
    data.push((x >> 8u64) as u8);
    data.push(x as u8);
    assert(final(data)@ =~= old(data)@ + be_bytes_u64(x));
}

/// Builds the byte sequence of a work attempt. The participant is accepted
/// but, as the game defines it, does not enter the bytes.
#[allow(unused_variables)]
pub fn generate_hash(farm_index: u32, nonce: u64, entropy: u64, farmer: u64) -> (r: Vec<u8>)
    ensures
        r@ == digest_of(farm_index, nonce, entropy),
        r@.len() == 20,
{
    let mut data: Vec<u8> = Vec::new();
    data.push((farm_index >> 24u32) as u8);
    data.push((farm_index >> 16u32) as u8);
    data.push((farm_index >> 8u32) as u8);
    data.push(farm_index as u8);
    assert(data@ =~= be_bytes_u32(farm_index));
    push_u64_be(&mut data, nonce);
    push_u64_be(&mut data, entropy);
    data
}

/// Counts the leading-zero run of `hash` (see `zero_run`).
pub fn count_leading_zeros(hash: &Vec<u8>) -> (r: u32)
    requires
        hash@.len() < 0x8000_0000,
    ensures
        r as nat == zero_run(hash@),
{
    let mut zeros: u32 = 0;
    let mut i: usize = 0;
    assert(hash@.subrange(0, hash@.len() as int) =~= hash@);
    while i < hash.len()
        invariant
            i <= hash@.len(),
            hash@.len() < 0x8000_0000,
            zeros as nat == 2 * i,
            zero_run(hash@) == zeros + zero_run(hash@.subrange(i as int, hash@.len() as int)),
        decreases hash@.len() - i,
    {
        let byte = hash[i];
        let ghost rest = hash@.subrange(i as int, hash@.len() as int);
        assert(rest.drop_first() =~= hash@.subrange(i + 1, hash@.len() as int));
        if byte == 0 {
            zeros = zeros + 2;
        } else if byte < 16 {
            zeros = zeros + 1;
            return zeros;
        } else {
            return zeros;
        }
        i = i + 1;
    }
    assert(hash@.subrange(i as int, hash@.len() as int).len() == 0);
    zeros
}

} // verus!
