//! Byte strings: comparison, concatenation, big-endian integers and sums.

use vstd::prelude::*;

verus! {

/// The eight bytes of `x`, most significant first.
pub open spec fn be_bytes(x: u64) -> Seq<u8> {
    seq![
        (x / 0x100_0000_0000_0000) as u8,
        (x / 0x1_0000_0000_0000 % 0x100) as u8,
        (x / 0x100_0000_0000 % 0x100) as u8,
        (x / 0x1_0000_0000 % 0x100) as u8,
        (x / 0x100_0000 % 0x100) as u8,
        (x / 0x1_0000 % 0x100) as u8,
        (x / 0x100 % 0x100) as u8,
        (x % 0x100) as u8,
    ]
}

/// The sum of the bytes of `bytes`.
pub open spec fn sum_of(bytes: Seq<u8>) -> nat
    decreases bytes.len(),
{
    if bytes.len() == 0 {
        0
    } else {
        sum_of(bytes.drop_last()) + bytes.last() as nat
    }
}

/// A sum of bytes is at most 255 for each byte.
pub proof fn lemma_sum_of_bound(bytes: Seq<u8>)
    ensures
        sum_of(bytes) <= 255 * bytes.len(),
    decreases bytes.len(),
{
    if bytes.len() > 0 {
        lemma_sum_of_bound(bytes.drop_last());
    }
}

/// Whether two byte strings hold the same bytes.
pub fn same_bytes(a: &Vec<u8>, b: &Vec<u8>) -> (same: bool)
    ensures
        same == (a@ == b@),
{
    let same = a == b;
    proof {
        if same {
            assert(a@ =~= b@);
        }
    }
    same
}

/// A copy of `source`.
pub fn copy_bytes(source: &Vec<u8>) -> (copy: Vec<u8>)
    ensures
        copy@ == source@,
{
    let mut copy: Vec<u8> = Vec::new();
    let mut i: usize = 0;
    while i < source.len()
        invariant
            i <= source.len(),
            copy@ == source@.subrange(0, i as int),
        decreases source.len() - i,
    {
        copy.push(source[i]);
        i += 1;
    }
    copy
}

/// Appends the bytes of `tail` to `buffer`.
pub fn append_bytes(buffer: &mut Vec<u8>, tail: &[u8])
    ensures
        final(buffer)@ == old(buffer)@ + tail@,
{
    let mut i: usize = 0;
    while i < tail.len()
        invariant
            i <= tail.len(),
            buffer@ == old(buffer)@ + tail@.subrange(0, i as int),
        decreases tail.len() - i,
    {
        buffer.push(tail[i]);
        i += 1;
    }
}

/// The big-endian bytes of `x`.
pub fn to_be_bytes(x: u64) -> (bytes: [u8; 8])
    ensures
        bytes@ == be_bytes(x),
{
    let bytes: [u8; 8] = [
        (x / 0x100_0000_0000_0000) as u8,
        (x / 0x1_0000_0000_0000 % 0x100) as u8,
        (x / 0x100_0000_0000 % 0x100) as u8,
        (x / 0x1_0000_0000 % 0x100) as u8,
        (x / 0x100_0000 % 0x100) as u8,
        (x / 0x1_0000 % 0x100) as u8,
        (x / 0x100 % 0x100) as u8,
        (x % 0x100) as u8,
    ];
    bytes
}

/// The sum of the thirty-two bytes of `block`.
pub fn byte_sum(block: &[u8; 32]) -> (sum: u64)
    ensures
        sum == sum_of(block@),
{
    let mut sum: u64 = 0;
    let mut i: usize = 0;
    while i < 32
        invariant
            i <= 32,
            sum == sum_of(block@.subrange(0, i as int)),
            sum <= 255 * i,
        decreases 32 - i,
    {
        assert(block@.subrange(0, i + 1).drop_last() == block@.subrange(0, i as int));
        sum = sum + block[i] as u64;
        i += 1;
    }
    assert(block@.subrange(0, 32) == block@);
    sum
}

} // verus!
