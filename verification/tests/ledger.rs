use estate_staking::agent::error::ContractError;
use estate_staking::agent::ledger::Ledger;
use estate_staking::agent::state::{StakedAccountInfo, TypeNFT};

fn house(token_id: &str, owner: &[u8], value: u128, rating: u8) -> StakedAccountInfo {
    StakedAccountInfo {
        token_id: token_id.to_string(),
        owner: owner.to_vec(),
        value,
        type_nft: TypeNFT::House,
        ternant_rating: rating,
    }
}

fn building(token_id: &str, owner: &[u8], value: u128) -> StakedAccountInfo {
    StakedAccountInfo {
        token_id: token_id.to_string(),
        owner: owner.to_vec(),
        value,
        type_nft: TypeNFT::Building,
        ternant_rating: 0,
    }
}

#[test]
fn a_new_ledger_is_empty() {
    let ledger = Ledger::new();
    assert_eq!(ledger.len(), 0);
    assert!(!ledger.has(&"H1".to_string()));
    assert_eq!(ledger.get(&"H1".to_string()), Err(ContractError::NotStaked));
    assert_eq!(ledger.list(&b"alice".to_vec()), vec![]);
}

#[test]
fn a_staked_token_is_found() {
    let mut ledger = Ledger::new();
    assert_eq!(ledger.stake(house("H1", b"alice", 1000, 7)), Ok(()));
    assert_eq!(ledger.len(), 1);
    assert!(ledger.has(&"H1".to_string()));
    assert_eq!(ledger.get(&"H1".to_string()), Ok(house("H1", b"alice", 1000, 7)));
    assert_eq!(ledger.list(&b"alice".to_vec()), vec![house("H1", b"alice", 1000, 7)]);
    assert_eq!(ledger.list(&b"bob".to_vec()), vec![]);
}

#[test]
fn a_token_is_staked_once() {
    let mut ledger = Ledger::new();
    assert_eq!(ledger.stake(house("H1", b"alice", 1000, 7)), Ok(()));
    let before = ledger.clone();
    assert_eq!(ledger.stake(house("H1", b"alice", 1000, 7)), Err(ContractError::AlreadyStaked));
    assert_eq!(ledger.stake(building("H1", b"bob", 3)), Err(ContractError::AlreadyStaked));
    assert_eq!(ledger, before);
    assert_eq!(ledger.stake(house("H2", b"alice", 1001, 2)), Ok(()));
    assert_eq!(ledger.stake(house("H1", b"carol", 1002, 2)), Err(ContractError::AlreadyStaked));
    assert_eq!(ledger.len(), 2);
}

#[test]
fn a_token_can_be_staked_again_once_it_was_taken_out() {
    let mut ledger = Ledger::new();
    assert_eq!(ledger.stake(house("H1", b"alice", 1000, 7)), Ok(()));
    assert_eq!(
        ledger.remove(&"H1".to_string(), &b"alice".to_vec()),
        Ok(house("H1", b"alice", 1000, 7))
    );
    assert!(!ledger.has(&"H1".to_string()));
    assert_eq!(ledger.list(&b"alice".to_vec()), vec![]);
    assert_eq!(ledger.stake(house("H1", b"bob", 2000, 3)), Ok(()));
    assert_eq!(ledger.get(&"H1".to_string()), Ok(house("H1", b"bob", 2000, 3)));
    assert_eq!(ledger.list(&b"bob".to_vec()), vec![house("H1", b"bob", 2000, 3)]);
}

#[test]
fn the_tokens_of_an_owner_are_listed_in_the_order_of_staking() {
    let mut ledger = Ledger::new();
    assert_eq!(ledger.stake(house("H1", b"alice", 10, 1)), Ok(()));
    assert_eq!(ledger.stake(building("B1", b"bob", 20)), Ok(()));
    assert_eq!(ledger.stake(building("B2", b"alice", 30)), Ok(()));
    assert_eq!(ledger.stake(house("H2", b"alice", 40, 4)), Ok(()));
    assert_eq!(ledger.stake(house("H3", b"bob", 50, 5)), Ok(()));
    assert_eq!(
        ledger.list(&b"alice".to_vec()),
        vec![house("H1", b"alice", 10, 1), building("B2", b"alice", 30), house("H2", b"alice", 40, 4)]
    );
    assert_eq!(
        ledger.list(&b"bob".to_vec()),
        vec![building("B1", b"bob", 20), house("H3", b"bob", 50, 5)]
    );
    assert_eq!(ledger.list(&b"carol".to_vec()), vec![]);
    assert_eq!(ledger.list(&b"".to_vec()), vec![]);
}

#[test]
fn taking_out_leaves_the_others_in_order() {
    let mut ledger = Ledger::new();
    assert_eq!(ledger.stake(house("H1", b"alice", 10, 1)), Ok(()));
    assert_eq!(ledger.stake(building("B1", b"bob", 20)), Ok(()));
    assert_eq!(ledger.stake(building("B2", b"alice", 30)), Ok(()));
    assert_eq!(ledger.stake(house("H2", b"alice", 40, 4)), Ok(()));
    assert_eq!(
        ledger.remove(&"B2".to_string(), &b"alice".to_vec()),
        Ok(building("B2", b"alice", 30))
    );
    assert_eq!(ledger.len(), 3);
    assert_eq!(
        ledger.list(&b"alice".to_vec()),
        vec![house("H1", b"alice", 10, 1), house("H2", b"alice", 40, 4)]
    );
    assert_eq!(ledger.list(&b"bob".to_vec()), vec![building("B1", b"bob", 20)]);
    assert_eq!(
        ledger.remove(&"H1".to_string(), &b"alice".to_vec()),
        Ok(house("H1", b"alice", 10, 1))
    );
    assert_eq!(ledger.list(&b"alice".to_vec()), vec![house("H2", b"alice", 40, 4)]);
    assert_eq!(
        ledger.remove(&"H2".to_string(), &b"alice".to_vec()),
        Ok(house("H2", b"alice", 40, 4))
    );
    assert_eq!(ledger.list(&b"alice".to_vec()), vec![]);
    assert_eq!(ledger.get(&"B1".to_string()), Ok(building("B1", b"bob", 20)));
}

#[test]
fn taking_out_is_for_the_owner_of_a_staked_token() {
    let mut ledger = Ledger::new();
    assert_eq!(ledger.stake(house("H1", b"alice", 10, 1)), Ok(()));
    let before = ledger.clone();
    assert_eq!(
        ledger.remove(&"H2".to_string(), &b"alice".to_vec()),
        Err(ContractError::NotStaked)
    );
    assert_eq!(
        ledger.remove(&"H1".to_string(), &b"bob".to_vec()),
        Err(ContractError::Unauthorized)
    );
    assert_eq!(
        ledger.remove(&"H2".to_string(), &b"bob".to_vec()),
        Err(ContractError::NotStaked)
    );
    assert_eq!(ledger, before);
}

#[test]
fn a_new_baseline_changes_the_value_only() {
    let mut ledger = Ledger::new();
    assert_eq!(ledger.stake(house("H1", b"alice", 10, 1)), Ok(()));
    assert_eq!(ledger.stake(building("B1", b"alice", 20)), Ok(()));
    assert_eq!(ledger.rebase(&"H1".to_string(), 99), Ok(()));
    assert_eq!(ledger.get(&"H1".to_string()), Ok(house("H1", b"alice", 99, 1)));
    assert_eq!(
        ledger.list(&b"alice".to_vec()),
        vec![house("H1", b"alice", 99, 1), building("B1", b"alice", 20)]
    );
    let before = ledger.clone();
    assert_eq!(ledger.rebase(&"H9".to_string(), 5), Err(ContractError::NotStaked));
    assert_eq!(ledger, before);
}

#[test]
fn reading_changes_nothing() {
    let mut ledger = Ledger::new();
    assert_eq!(ledger.stake(house("H1", b"alice", 10, 1)), Ok(()));
    assert_eq!(ledger.stake(building("B1", b"bob", 20)), Ok(()));
    let before = ledger.clone();
    for _ in 0..3 {
        assert_eq!(ledger.get(&"H1".to_string()), Ok(house("H1", b"alice", 10, 1)));
        assert_eq!(ledger.get(&"H7".to_string()), Err(ContractError::NotStaked));
        assert_eq!(ledger.list(&b"bob".to_vec()), vec![building("B1", b"bob", 20)]);
        assert_eq!(ledger.list(&b"nobody".to_vec()), vec![]);
        assert!(ledger.has(&"B1".to_string()));
        assert_eq!(ledger.len(), 2);
    }
    assert_eq!(ledger, before);
}

#[test]
fn copy_of_a_position() {
    let position = house("H1", b"alice", 10, 1);
    assert_eq!(position.duplicate(), position);
}

#[test]
fn all_positions_in_the_order_of_staking() {
    let mut ledger = Ledger::new();
    assert_eq!(ledger.positions(), vec![]);
    assert_eq!(ledger.count_buildings(), 0);
    assert_eq!(ledger.stake(house("H1", b"alice", 10, 1)), Ok(()));
    assert_eq!(ledger.stake(building("B1", b"bob", 20)), Ok(()));
    assert_eq!(ledger.stake(building("B2", b"alice", 30)), Ok(()));
    assert_eq!(
        ledger.positions(),
        vec![house("H1", b"alice", 10, 1), building("B1", b"bob", 20), building("B2", b"alice", 30)]
    );
    assert_eq!(ledger.count_buildings(), 2);
    assert_eq!(
        ledger.remove(&"B1".to_string(), &b"bob".to_vec()),
        Ok(building("B1", b"bob", 20))
    );
    assert_eq!(
        ledger.positions(),
        vec![house("H1", b"alice", 10, 1), building("B2", b"alice", 30)]
    );
    assert_eq!(ledger.count_buildings(), 1);
}
