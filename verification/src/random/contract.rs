//! The randomness source itself.

use vstd::prelude::*;
use crate::bytes::byte_sum;
use crate::bytes::sum_of;
use crate::digest::sha256;
use crate::digest::sha256_pair;
use crate::keystream::generator_fill_block;
use crate::keystream::generator_from_seed;
use crate::keystream::chacha20_stream;
use crate::keystream::stream_of;
use crate::keystream::stream_block;
use crate::keystream::words_drawn;
use crate::random::msg::InstantiateMsg;
use crate::random::msg::MessageInfo;
use crate::response::Response;
use crate::response::TransferView;
use crate::response::attribute;
use crate::random::msg::QueryAnswer;
use crate::random::msg::QueryMsg;

verus! {

/// What the randomness source keeps: its owner.
#[derive(Clone, Debug)]
pub struct State {
    pub owner: String,
}

/// The last block that `round` fills of the key stream under `key`: all
/// zero where no block is filled, that is for a round of zero or one.
pub open spec fn round_block(key: Seq<u8>, round: u64) -> Seq<u8> {
    if round <= 1 {
        Seq::new(32, |i: int| 0u8)
    } else {
        stream_block(chacha20_stream(key), (8 * (round - 2)) as nat)
    }
}

/// The number of `round` under `seed` and `entropy`: the generator is keyed
/// with the SHA-256 digest of the two, fills `round - 1` blocks of
/// thirty-two bytes, and the bytes of the last block are summed.
pub open spec fn random_number(seed: Seq<u8>, entropy: Seq<u8>, round: u64) -> nat {
    sum_of(round_block(sha256(seed + entropy), round))
}

/// The state of a source owned by `msg.owner`, and the response that tells
/// who set it up. No coin of `info` is taken, and no transfer is ordered.
pub fn instantiate(info: &MessageInfo, msg: InstantiateMsg) -> (started: (State, Response))
    ensures
        started.0.owner@ == msg.owner@,
        started.1@.attributes == seq![
            attribute("method"@, "instantiate"@),
            attribute("owner"@, info.sender@),
        ],
        started.1@.messages == Seq::<TransferView>::empty(),
{
    let response = Response::new().add_attribute("method", "instantiate").add_attribute(
        "owner",
        info.sender.as_str(),
    );
    (State { owner: msg.owner }, response)
}

/// The answer to `msg`: the owner for `GetOwner`, the number drawn for
/// `Random`.
pub fn query(state: &State, msg: QueryMsg) -> (answer: QueryAnswer)
    ensures
        match msg {
            QueryMsg::Random { seed, entropy, round } => answer == QueryAnswer::Random(
                random_number(seed@, entropy@, round) as u64,
            ),
            QueryMsg::GetOwner {  } => answer matches QueryAnswer::Owner(owner) && owner@
                == state.owner@,
        },
{
    match msg {
        QueryMsg::Random { seed, entropy, round } => QueryAnswer::Random(
            query_random(seed, entropy, round),
        ),
        QueryMsg::GetOwner {  } => QueryAnswer::Owner(query_owner(state)),
    }
}

/// The owner of the source.
pub fn query_owner(state: &State) -> (owner: String)
    ensures
        owner@ == state.owner@,
{
    state.owner.clone()
}

/// The number of `round` under `seed` and `entropy`.
pub fn query_random(seed: &[u8], entropy: &[u8], round: u64) -> (sum: u64)
    ensures
        sum == random_number(seed@, entropy@, round),
        sum <= 255 * 32,
{
    let key = sha256_pair(seed, entropy);
    let mut rng = generator_from_seed(key);
    let mut block: [u8; 32] = [0u8; 32];
    let mut filled: u64 = 1;
    while filled < round
        invariant
            1 <= filled,
            filled <= round || filled == 1,
            stream_of(rng) == chacha20_stream(key@),
            words_drawn(rng) == 8 * (filled - 1),
            block@ == round_block(key@, filled),
        decreases round - filled,
    {
        generator_fill_block(&mut rng, &mut block);
        filled = filled + 1;
    }
    proof {
        crate::bytes::lemma_sum_of_bound(block@);
    }
    byte_sum(&block)
}

} // verus!
