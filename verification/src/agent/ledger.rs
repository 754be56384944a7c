//! The staking ledger: one position for each staked token, in the order of
//! staking, and for each owner the tokens that they have staked.

use vstd::prelude::*;
use crate::agent::error::ContractError;
use crate::agent::state::PositionView;
use crate::agent::state::StakedAccountInfo;
use crate::agent::state::TypeNFT;
use crate::bytes::copy_bytes;
use crate::bytes::same_bytes;

verus! {

/// No two positions of `s` are of one token.
pub open spec fn distinct_tokens(s: Seq<PositionView>) -> bool {
    forall|i: int, j: int|
        0 <= i < j < s.len() ==> (#[trigger] s[i]).token_id != (#[trigger] s[j]).token_id
}

/// Whether `token_id` has a position in `s`.
pub open spec fn staked(s: Seq<PositionView>, token_id: Seq<char>) -> bool {
    exists|i: int| 0 <= i < s.len() && (#[trigger] s[i]).token_id == token_id
}

/// The place in `s` of the position of `token_id`, where it has one.
pub open spec fn slot_of(s: Seq<PositionView>, token_id: Seq<char>) -> int {
    choose|i: int| 0 <= i < s.len() && (#[trigger] s[i]).token_id == token_id
}

/// The position of `token_id` in `s`, where it has one.
pub open spec fn position_of(s: Seq<PositionView>, token_id: Seq<char>) -> Option<PositionView> {
    if staked(s, token_id) {
        Some(s[slot_of(s, token_id)])
    } else {
        None
    }
}

/// The test that a position is owned by `owner`.
pub open spec fn owned_by(owner: Seq<u8>) -> spec_fn(PositionView) -> bool {
    |p: PositionView| p.owner == owner
}

/// The test that a position is of a building.
pub open spec fn is_building() -> spec_fn(PositionView) -> bool {
    |p: PositionView| p.type_nft == TypeNFT::Building
}

/// The positions of `s` that `owner` owns, in the order of staking.
pub open spec fn positions_of(s: Seq<PositionView>, owner: Seq<u8>) -> Seq<PositionView> {
    s.filter(owned_by(owner))
}

/// The tokens that `owner` has staked in `s`, in the order of staking.
pub open spec fn tokens_of(s: Seq<PositionView>, owner: Seq<u8>) -> Seq<Seq<char>> {
    Seq::new(positions_of(s, owner).len(), |k: int| positions_of(s, owner)[k].token_id)
}

/// The number of buildings staked in `s`.
pub open spec fn buildings(s: Seq<PositionView>) -> nat {
    s.filter(is_building()).len()
}

/// Every rating of `s` is between zero and ten, and that of a building is
/// zero.
pub open spec fn well_rated(s: Seq<PositionView>) -> bool {
    forall|i: int|
        0 <= i < s.len() ==> {
            &&& (#[trigger] s[i]).ternant_rating <= 10
            &&& s[i].type_nft == TypeNFT::Building ==> s[i].ternant_rating == 0
        }
}

/// The positions after `position` has been staked: it comes last. A token
/// that has a position already is refused.
pub open spec fn staking(s: Seq<PositionView>, position: PositionView) -> Result<
    Seq<PositionView>,
    ContractError,
> {
    if staked(s, position.token_id) {
        Err(ContractError::AlreadyStaked)
    } else {
        Ok(s.push(position))
    }
}

/// The positions after that of `token_id` has been taken out by `owner`. A
/// token without a position is refused, and so is an owner other than the
/// one recorded.
pub open spec fn removal(s: Seq<PositionView>, token_id: Seq<char>, owner: Seq<u8>) -> Result<
    Seq<PositionView>,
    ContractError,
> {
    if !staked(s, token_id) {
        Err(ContractError::NotStaked)
    } else if s[slot_of(s, token_id)].owner != owner {
        Err(ContractError::Unauthorized)
    } else {
        Ok(s.remove(slot_of(s, token_id)))
    }
}

/// The positions after the baseline of that at `slot` has been set to
/// `value`.
pub open spec fn rebased(s: Seq<PositionView>, slot: int, value: u128) -> Seq<PositionView> {
    s.update(slot, PositionView { value: value, ..s[slot] })
}

/// Among distinct tokens, a token is found at one place only.
pub proof fn lemma_slot_unique(s: Seq<PositionView>, i: int)
    requires
        distinct_tokens(s),
        0 <= i < s.len(),
    ensures
        staked(s, s[i].token_id),
        slot_of(s, s[i].token_id) == i,
        position_of(s, s[i].token_id) == Some(s[i]),
{
}

/// A sequence filtered at place `i`: what passes before it, the element
/// there if it passes, and what passes after it. Without the element, the
/// two ends are left.
pub proof fn lemma_filter_split<A>(s: Seq<A>, pred: spec_fn(A) -> bool, i: int)
    requires
        0 <= i < s.len(),
    ensures
        s.filter(pred) == s.subrange(0, i).filter(pred) + (if pred(s[i]) {
            seq![s[i]]
        } else {
            Seq::<A>::empty()
        }) + s.subrange(i + 1, s.len() as int).filter(pred),
        s.remove(i).filter(pred) == s.subrange(0, i).filter(pred) + s.subrange(
            i + 1,
            s.len() as int,
        ).filter(pred),
{
    let head = s.subrange(0, i);
    let here = seq![s[i]];
    let tail = s.subrange(i + 1, s.len() as int);
    assert(s =~= head + here + tail);
    Seq::filter_distributes_over_add(head + here, tail, pred);
    Seq::filter_distributes_over_add(head, here, pred);
    Seq::filter_distributes_over_add(head, tail, pred);
    assert(here.filter(pred) =~= (if pred(s[i]) {
        seq![s[i]]
    } else {
        Seq::<A>::empty()
    })) by {
        reveal_with_fuel(Seq::filter, 2);
    }
}

/// Each element of a filtered sequence passes the test and stands in the
/// sequence that was filtered: the place returned is one where it stands.
pub proof fn lemma_filter_source<A>(s: Seq<A>, pred: spec_fn(A) -> bool, k: int) -> (i: int)
    requires
        0 <= k < s.filter(pred).len(),
    ensures
        0 <= i < s.len(),
        s[i] == s.filter(pred)[k],
        pred(s[i]),
    decreases s.len(),
{
    reveal(Seq::filter);
    if s.len() == 0 {
        0
    } else {
        let front = s.drop_last().filter(pred);
        if pred(s.last()) && k == front.len() {
            s.len() - 1
        } else {
            lemma_filter_source(s.drop_last(), pred, k)
        }
    }
}

/// An element that passes the test stands in the filtered sequence: the
/// place returned is the one where it stands, which is the number of
/// elements before it that pass.
pub proof fn lemma_filter_place<A>(s: Seq<A>, pred: spec_fn(A) -> bool, i: int) -> (k: int)
    requires
        0 <= i < s.len(),
        pred(s[i]),
    ensures
        k == s.subrange(0, i).filter(pred).len(),
        0 <= k < s.filter(pred).len(),
        s.filter(pred)[k] == s[i],
{
    lemma_filter_split(s, pred, i);
    s.subrange(0, i).filter(pred).len() as int
}

/// One owner and the tokens that they have staked, in the order of
/// staking.
#[derive(Clone, Debug, PartialEq, Eq)]
pub struct OwnerTokens {
    owner: Vec<u8>,
    token_ids: Vec<String>,
}

impl OwnerTokens {
    spec fn tokens(&self) -> Seq<Seq<char>> {
        Seq::new(self.token_ids@.len(), |k: int| self.token_ids@[k]@)
    }
}

/// The ledger. Its view is the sequence of its positions, in the order of
/// staking.
#[derive(Clone, Debug, PartialEq, Eq)]
pub struct Ledger {
    positions: Vec<StakedAccountInfo>,
    owners: Vec<OwnerTokens>,
}

impl View for Ledger {
    type V = Seq<PositionView>;

    closed spec fn view(&self) -> Seq<PositionView> {
        Seq::new(self.positions@.len(), |i: int| self.positions@[i]@)
    }
}

impl Ledger {
    spec fn has_entry(&self, owner: Seq<u8>) -> bool {
        exists|e: int| 0 <= e < self.owners@.len() && (#[trigger] self.owners@[e]).owner@ == owner
    }

    /// The ledger is well formed: no token has two positions, no owner has
    /// two lists, each list holds the tokens of the positions of its owner
    /// in the order of staking, and each owner of a position has a list.
    pub closed spec fn wf(&self) -> bool {
        &&& distinct_tokens(self@)
        &&& forall|e: int, f: int|
            0 <= e < f < self.owners@.len() ==> (#[trigger] self.owners@[e]).owner@
                != (#[trigger] self.owners@[f]).owner@
        &&& forall|e: int|
            0 <= e < self.owners@.len() ==> (#[trigger] self.owners@[e]).tokens() == tokens_of(
                self@,
                self.owners@[e].owner@,
            )
        &&& forall|i: int|
            0 <= i < self.positions@.len() ==> self.has_entry((#[trigger] self.positions@[i]).owner@)
    }

    /// In a well-formed ledger no token has two positions.
    pub proof fn lemma_wf_distinct(&self)
        requires
            self.wf(),
        ensures
            distinct_tokens(self@),
    {
    }

    /// An empty ledger.
    pub fn new() -> (ledger: Ledger)
        ensures
            ledger.wf(),
            ledger@ == Seq::<PositionView>::empty(),
    {
        let ledger = Ledger { positions: Vec::new(), owners: Vec::new() };
        ledger
    }

    /// All the positions, in the order of staking.
    pub fn positions(&self) -> (result: Vec<StakedAccountInfo>)
        ensures
            result@.len() == self@.len(),
            forall|k: int| 0 <= k < result@.len() ==> (#[trigger] result@[k])@ == self@[k],
    {
        let mut result: Vec<StakedAccountInfo> = Vec::new();
        let mut i: usize = 0;
        while i < self.positions.len()
            invariant
                i <= self.positions@.len(),
                result@.len() == i,
                forall|k: int| 0 <= k < i ==> (#[trigger] result@[k])@ == self@[k],
            decreases self.positions@.len() - i,
        {
            result.push(self.positions[i].duplicate());
            i += 1;
        }
        result
    }

    /// The number of buildings among the positions.
    pub fn count_buildings(&self) -> (count: usize)
        ensures
            count == buildings(self@),
    {
        let mut count: usize = 0;
        let mut i: usize = 0;
        proof {
            reveal(Seq::filter);
        }
        while i < self.positions.len()
            invariant
                i <= self.positions@.len(),
                count == buildings(self@.subrange(0, i as int)),
                count <= i,
            decreases self.positions@.len() - i,
        {
            proof {
                assert(self@.subrange(0, i + 1) =~= self@.subrange(0, i as int).push(self@[i as int]));
                lemma_buildings_push(self@.subrange(0, i as int), self@[i as int]);
            }
            match self.positions[i].type_nft {
                TypeNFT::House => {},
                TypeNFT::Building => {
                    count += 1;
                },
            }
            i += 1;
        }
        assert(self@.subrange(0, self@.len() as int) =~= self@);
        count
    }

    /// The number of positions.
    pub fn len(&self) -> (count: usize)
        ensures
            count == self@.len(),
    {
        self.positions.len()
    }

    fn find_position(&self, token_id: &String) -> (found: Option<usize>)
        ensures
            match found {
                Some(i) => i < self@.len() && self@[i as int].token_id == token_id@,
                None => !staked(self@, token_id@),
            },
    {
        let mut i: usize = 0;
        while i < self.positions.len()
            invariant
                i <= self.positions.len(),
                forall|j: int| 0 <= j < i ==> (#[trigger] self@[j]).token_id != token_id@,
            decreases self.positions.len() - i,
        {
            if self.positions[i].token_id == *token_id {
                return Some(i);
            }
            i += 1;
        }
        None
    }

    fn find_owner(&self, owner: &Vec<u8>) -> (found: Option<usize>)
        ensures
            match found {
                Some(e) => e < self.owners@.len() && self.owners@[e as int].owner@ == owner@,
                None => !self.has_entry(owner@),
            },
    {
        let mut e: usize = 0;
        while e < self.owners.len()
            invariant
                e <= self.owners.len(),
                forall|f: int| 0 <= f < e ==> (#[trigger] self.owners@[f]).owner@ != owner@,
            decreases self.owners.len() - e,
        {
            if same_bytes(&self.owners[e].owner, owner) {
                return Some(e);
            }
            e += 1;
        }
        None
    }

    /// Whether `token_id` has a position.
    pub fn has(&self, token_id: &String) -> (found: bool)
        ensures
            found == staked(self@, token_id@),
    {
        self.find_position(token_id).is_some()
    }

    /// The position of `token_id`, or `NotStaked` where it has none.
    pub fn get(&self, token_id: &String) -> (result: Result<StakedAccountInfo, ContractError>)
        requires
            self.wf(),
        ensures
            match result {
                Ok(position) => position_of(self@, token_id@) == Some(position@),
                Err(error) => error == ContractError::NotStaked && position_of(self@, token_id@)
                    is None,
            },
    {
        match self.find_position(token_id) {
            Some(i) => {
                proof {
                    lemma_slot_unique(self@, i as int);
                }
                Ok(self.positions[i].duplicate())
            },
            None => Err(ContractError::NotStaked),
        }
    }

    /// Stakes `position`: it becomes the last position of the ledger and the
    /// last token of its owner. A token that has a position already is
    /// refused with `AlreadyStaked`, and the ledger is left as it was.
    pub fn stake(&mut self, position: StakedAccountInfo) -> (result: Result<(), ContractError>)
        requires
            old(self).wf(),
        ensures
            final(self).wf(),
            match staking(old(self)@, position@) {
                Ok(positions) => result is Ok && final(self)@ == positions,
                Err(error) => result == Err::<(), ContractError>(error) && final(self)@ == old(self)@,
            },
    {
        if self.find_position(&position.token_id).is_some() {
            return Err(ContractError::AlreadyStaked);
        }
        let token_id = position.token_id.clone();
        let ghost before = self@;
        let ghost staked_position = position@;
        let ghost listed: int;
        match self.find_owner(&position.owner) {
            Some(e) => {
                self.owners[e].token_ids.push(token_id);
                proof {
                    listed = e as int;
                }
            },
            None => {
                let mut token_ids: Vec<String> = Vec::new();
                token_ids.push(token_id);
                let entry = OwnerTokens { owner: copy_bytes(&position.owner), token_ids };
                proof {
                    listed = self.owners@.len() as int;
                    if positions_of(before, staked_position.owner).len() > 0 {
                        lemma_filter_source(before, owned_by(staked_position.owner), 0);
                    }
                }
                self.owners.push(entry);
            },
        }
        self.positions.push(position);
        proof {
            assert(self@ =~= before.push(staked_position));
            assert forall|e: int| 0 <= e < self.owners@.len() implies (
            #[trigger] self.owners@[e]).tokens() == tokens_of(self@, self.owners@[e].owner@) by {
                lemma_tokens_push(before, staked_position, self.owners@[e].owner@);
            }
            assert forall|i: int| 0 <= i < self.positions@.len() implies self.has_entry(
                (#[trigger] self.positions@[i]).owner@,
            ) by {
                if i < old(self).positions@.len() {
                    let e = choose|e: int|
                        0 <= e < old(self).owners@.len() && (#[trigger] old(self).owners@[e]).owner@
                            == old(self).positions@[i].owner@;
                    assert(self.owners@[e].owner@ == self.positions@[i].owner@);
                } else {
                    assert(self.owners@[listed].owner@ == staked_position.owner);
                }
            }
        }
        Ok(())
    }

    /// Takes the position of `token_id` out of the ledger, and the token out
    /// of the list of its owner, and returns the position. It is refused
    /// with `NotStaked` where the token has no position, and with
    /// `Unauthorized` where `owner` is not the owner recorded; the ledger is
    /// then left as it was.
    pub fn remove(&mut self, token_id: &String, owner: &Vec<u8>) -> (result: Result<
        StakedAccountInfo,
        ContractError,
    >)
        requires
            old(self).wf(),
        ensures
            final(self).wf(),
            match removal(old(self)@, token_id@, owner@) {
                Ok(positions) => {
                    &&& final(self)@ == positions
                    &&& result matches Ok(removed)
                    &&& position_of(old(self)@, token_id@) == Some(removed@)
                },
                Err(error) => {
                    &&& final(self)@ == old(self)@
                    &&& result matches Err(refusal)
                    &&& refusal == error
                },
            },
    {
        let i = match self.find_position(token_id) {
            Some(i) => i,
            None => {
                return Err(ContractError::NotStaked);
            },
        };
        proof {
            lemma_slot_unique(self@, i as int);
        }
        if !same_bytes(&self.positions[i].owner, owner) {
            return Err(ContractError::Unauthorized);
        }
        let ghost before = self@;
        let e = self.find_owner(owner).unwrap();
        let ghost place = lemma_filter_place(before, owned_by(owner@), i as int);
        assert(self.owners@[e as int].tokens() == tokens_of(before, owner@));
        assert(self.owners@[e as int].tokens()[place] == token_id@);
        let mut k: usize = 0;
        while k < self.owners[e].token_ids.len() && self.owners[e].token_ids[k] != *token_id
            invariant
                *self == *old(self),
                e < self.owners@.len(),
                0 <= place < self.owners@[e as int].token_ids@.len(),
                self.owners@[e as int].token_ids@[place]@ == token_id@,
                k <= place,
            decreases self.owners@[e as int].token_ids@.len() - k,
        {
            k += 1;
        }
        proof {
            if k < place {
                assert(self.owners@[e as int].tokens()[k as int] == token_id@);
                lemma_filter_split(before, owned_by(owner@), i as int);
                lemma_filter_source(before.subrange(0, i as int), owned_by(owner@), k as int);
            }
        }
        self.owners[e].token_ids.remove(k);
        let removed = self.positions.remove(i);
        proof {
            assert(self@ =~= before.remove(i as int));
            assert forall|f: int| 0 <= f < self.owners@.len() implies (
            #[trigger] self.owners@[f]).tokens() == tokens_of(self@, self.owners@[f].owner@) by {
                lemma_filter_split(before, owned_by(self.owners@[f].owner@), i as int);
                if f == e as int {
                    assert(self.owners@[f].tokens() =~= old(self).owners@[f].tokens().remove(
                        k as int,
                    ));
                }
            }
            assert forall|j: int| 0 <= j < self.positions@.len() implies self.has_entry(
                (#[trigger] self.positions@[j]).owner@,
            ) by {
                let was = if j < i { j } else { j + 1 };
                let g = choose|g: int|
                    0 <= g < old(self).owners@.len() && (#[trigger] old(self).owners@[g]).owner@
                        == old(self).positions@[was].owner@;
                assert(self.owners@[g].owner@ == self.positions@[j].owner@);
            }
        }
        Ok(removed)
    }

    /// Sets the baseline of the position of `token_id` to `value`. A token
    /// without a position is refused with `NotStaked`.
    pub fn rebase(&mut self, token_id: &String, value: u128) -> (result: Result<(), ContractError>)
        requires
            old(self).wf(),
        ensures
            final(self).wf(),
            match result {
                Ok(_) => staked(old(self)@, token_id@) && final(self)@ == rebased(
                    old(self)@,
                    slot_of(old(self)@, token_id@),
                    value,
                ),
                Err(error) => error == ContractError::NotStaked && !staked(old(self)@, token_id@)
                    && final(self)@ == old(self)@,
            },
    {
        let i = match self.find_position(token_id) {
            Some(i) => i,
            None => {
                return Err(ContractError::NotStaked);
            },
        };
        proof {
            lemma_slot_unique(self@, i as int);
        }
        let ghost before = self@;
        self.positions[i].value = value;
        proof {
            assert(self@ =~= rebased(before, i as int, value));
            assert forall|e: int| 0 <= e < self.owners@.len() implies (
            #[trigger] self.owners@[e]).tokens() == tokens_of(self@, self.owners@[e].owner@) by {
                let owner = self.owners@[e].owner@;
                lemma_filter_split(before, owned_by(owner), i as int);
                lemma_filter_split(self@, owned_by(owner), i as int);
                assert(self@.subrange(0, i as int) =~= before.subrange(0, i as int));
                assert(self@.subrange(i + 1, self@.len() as int) =~= before.subrange(
                    i + 1,
                    before.len() as int,
                ));
            }
        }
        Ok(())
    }

    /// The positions that `owner` owns, in the order of staking.
    pub fn list(&self, owner: &Vec<u8>) -> (result: Vec<StakedAccountInfo>)
        requires
            self.wf(),
        ensures
            result@.len() == positions_of(self@, owner@).len(),
            forall|k: int|
                0 <= k < result@.len() ==> (#[trigger] result@[k])@ == positions_of(self@, owner@)[k],
    {
        let mut result: Vec<StakedAccountInfo> = Vec::new();
        match self.find_owner(owner) {
            Some(e) => {
                assert(self.owners@[e as int].tokens() == tokens_of(self@, owner@));
                let mut k: usize = 0;
                while k < self.owners[e].token_ids.len()
                    invariant
                        self.wf(),
                        e < self.owners@.len(),
                        self.owners@[e as int].tokens() == tokens_of(self@, owner@),
                        k <= self.owners@[e as int].token_ids@.len(),
                        result@.len() == k,
                        forall|n: int|
                            0 <= n < k ==> (#[trigger] result@[n])@ == positions_of(self@, owner@)[n],
                    decreases self.owners@[e as int].token_ids@.len() - k,
                {
                    assert(self.owners@[e as int].tokens().len() == self.owners@[e as int].token_ids@.len());
                    let ghost source = lemma_filter_source(self@, owned_by(owner@), k as int);
                    assert(tokens_of(self@, owner@)[k as int] == self@[source].token_id);
                    proof {
                        lemma_slot_unique(self@, source);
                    }
                    let i = self.find_position(&self.owners[e].token_ids[k]).unwrap();
                    proof {
                        lemma_slot_unique(self@, i as int);
                    }
                    result.push(self.positions[i].duplicate());
                    k += 1;
                }
            },
            None => {
                proof {
                    if positions_of(self@, owner@).len() > 0 {
                        lemma_filter_source(self@, owned_by(owner@), 0);
                    }
                }
            },
        }
        result
    }
}

/// Staking adds the token to the list of its owner and to no other.
pub proof fn lemma_tokens_push(s: Seq<PositionView>, position: PositionView, owner: Seq<u8>)
    ensures
        positions_of(s.push(position), owner) == if position.owner == owner {
            positions_of(s, owner).push(position)
        } else {
            positions_of(s, owner)
        },
        tokens_of(s.push(position), owner) == if position.owner == owner {
            tokens_of(s, owner).push(position.token_id)
        } else {
            tokens_of(s, owner)
        },
{
    reveal(Seq::filter);
    assert(s.push(position).drop_last() =~= s);
}

/// Ratings stay as they should be when a position with such a rating is
/// staked, when a position is taken out, and when a baseline is set.
pub proof fn lemma_well_rated_kept(s: Seq<PositionView>, position: PositionView, i: int, value: u128)
    requires
        well_rated(s),
    ensures
        position.ternant_rating <= 10 && (position.type_nft == TypeNFT::Building
            ==> position.ternant_rating == 0) ==> well_rated(s.push(position)),
        0 <= i < s.len() ==> well_rated(s.remove(i)),
        0 <= i < s.len() ==> well_rated(rebased(s, i, value)),
{
}

/// Staking counts a building in, and a house not.
pub proof fn lemma_buildings_push(s: Seq<PositionView>, position: PositionView)
    ensures
        buildings(s.push(position)) == buildings(s) + if position.type_nft == TypeNFT::Building {
            1nat
        } else {
            0nat
        },
{
    reveal(Seq::filter);
    assert(s.push(position).drop_last() =~= s);
}

/// Taking a position out counts a building out, and a house not.
pub proof fn lemma_buildings_remove(s: Seq<PositionView>, i: int)
    requires
        0 <= i < s.len(),
    ensures
        buildings(s) == buildings(s.remove(i)) + if s[i].type_nft == TypeNFT::Building {
            1nat
        } else {
            0nat
        },
{
    lemma_filter_split(s, is_building(), i);
}

/// A new baseline changes the number of buildings not.
pub proof fn lemma_buildings_rebased(s: Seq<PositionView>, i: int, value: u128)
    requires
        0 <= i < s.len(),
    ensures
        buildings(rebased(s, i, value)) == buildings(s),
{
    let t = rebased(s, i, value);
    lemma_filter_split(s, is_building(), i);
    lemma_filter_split(t, is_building(), i);
    assert(t.subrange(0, i) =~= s.subrange(0, i));
    assert(t.subrange(i + 1, t.len() as int) =~= s.subrange(i + 1, s.len() as int));
}

} // verus!
