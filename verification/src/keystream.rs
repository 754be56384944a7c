//! The ChaCha20 generator of the `rand_chacha` crate, as a stream of 32-bit
//! words.

use vstd::prelude::*;
use rand_chacha::ChaCha20Rng;
use rand_core::RngCore;
use rand_core::SeedableRng;

verus! {

/// The generator of `rand_chacha`. Its fields are hidden: a generator is
/// spoken of through the stream of words that it reads, `stream_of`, and
/// the number of words that it has handed out, `words_drawn`.
#[verifier::external_type_specification]
#[verifier::external_body]
pub struct ExChaCha20Rng(ChaCha20Rng);

/// The ChaCha20 key stream that `seed` opens, on stream number zero: at
/// each place the 32-bit word that a generator made from `seed` hands out
/// there.
pub uninterp spec fn chacha20_stream(seed: Seq<u8>) -> Map<nat, u32>;

/// The stream of words that a generator reads.
pub uninterp spec fn stream_of(rng: ChaCha20Rng) -> Map<nat, u32>;

/// The number of words that a generator has handed out since it was made.
pub uninterp spec fn words_drawn(rng: ChaCha20Rng) -> nat;

/// Byte `k` of `word`, least significant first.
pub open spec fn le_byte(word: u32, k: int) -> u8 {
    if k == 0 {
        (word % 0x100) as u8
    } else if k == 1 {
        (word / 0x100 % 0x100) as u8
    } else if k == 2 {
        (word / 0x1_0000 % 0x100) as u8
    } else {
        (word / 0x100_0000) as u8
    }
}

/// The 64-bit value made of the two words of `stream` from place `at` on,
/// the first of them in the low half.
pub open spec fn stream_u64(stream: Map<nat, u32>, at: nat) -> u64 {
    (stream[at] as int + 0x1_0000_0000 * (stream[at + 1] as int)) as u64
}

/// The thirty-two bytes made of the eight words of `stream` from place
/// `at` on, each word least significant byte first.
pub open spec fn stream_block(stream: Map<nat, u32>, at: nat) -> Seq<u8> {
    Seq::new(32, |i: int| le_byte(stream[at + (i / 4) as nat], i % 4))
}

/// The first 64-bit value of the key stream that `seed` opens.
pub open spec fn first_draw(seed: Seq<u8>) -> u64 {
    stream_u64(chacha20_stream(seed), 0)
}

/// Calls `ChaCha20Rng::from_seed`. Trusted: the generator reads the key
/// stream of `seed` and has handed out nothing yet.
#[verifier::external_body]
pub(crate) fn generator_from_seed(seed: [u8; 32]) -> (rng: ChaCha20Rng)
    ensures
        stream_of(rng) == chacha20_stream(seed@),
        words_drawn(rng) == 0,
{
    ChaCha20Rng::from_seed(seed)
}

/// Calls `RngCore::next_u64` on the generator. Trusted: the value is made of
/// the next two words of the stream, the first of them in the low half, as
/// `rand_core` documents of its block generators.
#[verifier::external_body]
pub(crate) fn generator_next_u64(rng: &mut ChaCha20Rng) -> (value: u64)
    ensures
        value == stream_u64(stream_of(*old(rng)), words_drawn(*old(rng))),
        stream_of(*final(rng)) == stream_of(*old(rng)),
        words_drawn(*final(rng)) == words_drawn(*old(rng)) + 2,
{
    rng.next_u64()
}

/// Calls `RngCore::fill_bytes` on the generator, for thirty-two bytes.
/// Trusted: the bytes are those of the next eight words of the stream, each
/// word least significant byte first, as `rand_core` documents of its block
/// generators.
#[verifier::external_body]
pub(crate) fn generator_fill_block(rng: &mut ChaCha20Rng, block: &mut [u8; 32])
    ensures
        final(block)@ == stream_block(stream_of(*old(rng)), words_drawn(*old(rng))),
        stream_of(*final(rng)) == stream_of(*old(rng)),
        words_drawn(*final(rng)) == words_drawn(*old(rng)) + 8,
{
    rng.fill_bytes(block)
}

/// The first 64-bit value that a generator made from `seed` hands out.
pub fn draw_u64(seed: &[u8; 32]) -> (value: u64)
    ensures
        value == first_draw(seed@),
{
    let mut rng = generator_from_seed(*seed);
    generator_next_u64(&mut rng)
}

} // verus!
