use token::{AccountId, Approval, Error, Event, Token, Transfer};

fn alice() -> AccountId {
    AccountId::from([0x1; 32])
}

fn zero() -> AccountId {
    AccountId::from([0x0; 32])
}

fn carol() -> AccountId {
    AccountId::from([0x3; 32])
}

#[test]
fn default_works() {
    let contract = Token::new(4294967000, alice());
    assert_eq!(contract.total_supply(), 4294967000);
}

#[test]
fn balance_works() {
    let contract = Token::new(4294967000, alice());
    assert_eq!(contract.balance_of(AccountId::from([0x1; 32])), 4294967000);
    assert_eq!(contract.balance_of(AccountId::from([0x0; 32])), 0);
}

#[test]
fn transfer_works() {
    let mut contract = Token::new(4294967000, alice());
    assert_eq!(contract.balance_of(AccountId::from([0x0; 32])), 0);
    assert_eq!(contract.transfer(alice(), AccountId::from([0x0; 32]), 4294967000), Ok(()));
    assert_eq!(contract.balance_of(AccountId::from([0x0; 32])), 4294967000);
}

#[test]
fn transfer_from_works() {
    let mut contract = Token::new(4294967000, alice());
    assert_eq!(contract.balance_of(AccountId::from([0x1; 32])), 4294967000);
    contract.approve(alice(), AccountId::from([0x1; 32]), 1000000).unwrap();
    contract
        .transfer_from(alice(), AccountId::from([0x1; 32]), AccountId::from([0x0; 32]), 69)
        .unwrap();
    assert_eq!(contract.balance_of(AccountId::from([0x0; 32])), 69);
}

#[test]
fn allowance_works() {
    let mut contract = Token::new(4294967000, alice());
    assert_eq!(contract.balance_of(AccountId::from([0x1; 32])), 4294967000);
    contract.approve(alice(), AccountId::from([0x1; 32]), 1000000).unwrap();
    assert_eq!(contract.allowance(AccountId::from([0x1; 32]), AccountId::from([0x1; 32])), 1000000);
}

#[test]
fn construction_assigns_supply_to_creator() {
    let t = Token::new(500, carol());
    assert_eq!(t.total_supply(), 500);
    assert_eq!(t.balance_of(carol()), 500);
    assert_eq!(t.balance_of(alice()), 0);
    assert_eq!(t.allowance(carol(), alice()), 0);
}

#[test]
fn construction_with_zero_supply() {
    let t = Token::new(0, carol());
    assert_eq!(t.total_supply(), 0);
    assert_eq!(t.balance_of(carol()), 0);
}

#[test]
fn construction_with_largest_supply() {
    let mut t = Token::new(u32::MAX, alice());
    assert_eq!(t.balance_of(alice()), u32::MAX);
    assert_eq!(t.transfer(alice(), zero(), u32::MAX), Ok(()));
    assert_eq!(t.balance_of(zero()), u32::MAX);
    assert_eq!(t.transfer(zero(), alice(), 1), Ok(()));
    assert_eq!(t.balance_of(alice()), 1);
    assert_eq!(t.balance_of(zero()), u32::MAX - 1);
}

#[test]
fn new_init_resets_to_construction() {
    let mut t = Token::new(100, alice());
    t.approve(alice(), zero(), 7).unwrap();
    t.transfer(alice(), zero(), 30).unwrap();
    t.new_init(40, carol());
    assert_eq!(t.total_supply(), 40);
    assert_eq!(t.balance_of(carol()), 40);
    assert_eq!(t.balance_of(alice()), 0);
    assert_eq!(t.balance_of(zero()), 0);
    assert_eq!(t.allowance(alice(), zero()), 0);
    assert_eq!(t.take_events().len(), 1);
}

#[test]
fn transfer_moves_value() {
    let mut t = Token::new(100, alice());
    assert_eq!(t.transfer(alice(), zero(), 30), Ok(()));
    assert_eq!(t.balance_of(alice()), 70);
    assert_eq!(t.balance_of(zero()), 30);
    assert_eq!(t.transfer(zero(), carol(), 10), Ok(()));
    assert_eq!(t.balance_of(zero()), 20);
    assert_eq!(t.balance_of(carol()), 10);
    let sum = t.balance_of(alice()) + t.balance_of(zero()) + t.balance_of(carol());
    assert_eq!(sum, t.total_supply());
}

#[test]
fn transfer_to_self_keeps_balance() {
    let mut t = Token::new(100, alice());
    assert_eq!(t.transfer(alice(), alice(), 100), Ok(()));
    assert_eq!(t.balance_of(alice()), 100);
    assert_eq!(t.transfer(alice(), alice(), 101), Err(Error::InsufficientBalance));
    assert_eq!(t.balance_of(alice()), 100);
}

#[test]
fn transfer_failure_changes_nothing() {
    let mut t = Token::new(100, alice());
    t.take_events();
    assert_eq!(t.transfer(alice(), zero(), 101), Err(Error::InsufficientBalance));
    assert_eq!(t.balance_of(alice()), 100);
    assert_eq!(t.balance_of(zero()), 0);
    assert_eq!(t.transfer(zero(), alice(), 1), Err(Error::InsufficientBalance));
    assert!(t.take_events().is_empty());
}

#[test]
fn approve_overwrites() {
    let mut t = Token::new(100, alice());
    assert_eq!(t.approve(alice(), zero(), 10), Ok(()));
    assert_eq!(t.approve(alice(), zero(), 3), Ok(()));
    assert_eq!(t.allowance(alice(), zero()), 3);
    assert_eq!(t.allowance(zero(), alice()), 0);
}

#[test]
fn transfer_from_consumes_allowance_on_success() {
    let mut t = Token::new(100, alice());
    t.approve(alice(), carol(), 50).unwrap();
    assert_eq!(t.transfer_from(carol(), alice(), zero(), 20), Ok(()));
    assert_eq!(t.allowance(alice(), carol()), 30);
    assert_eq!(t.balance_of(alice()), 80);
    assert_eq!(t.balance_of(zero()), 20);
    assert_eq!(t.balance_of(carol()), 0);
}

#[test]
fn transfer_from_insufficient_balance_keeps_allowance() {
    let mut t = Token::new(100, alice());
    t.transfer(alice(), zero(), 90).unwrap();
    t.approve(alice(), carol(), 50).unwrap();
    assert_eq!(t.transfer_from(carol(), alice(), zero(), 20), Err(Error::InsufficientBalance));
    assert_eq!(t.allowance(alice(), carol()), 50);
    assert_eq!(t.balance_of(alice()), 10);
    assert_eq!(t.balance_of(zero()), 90);
}

#[test]
fn transfer_from_insufficient_allowance() {
    let mut t = Token::new(100, alice());
    t.approve(alice(), carol(), 5).unwrap();
    assert_eq!(t.transfer_from(carol(), alice(), zero(), 6), Err(Error::InsufficientAllowance));
    assert_eq!(t.transfer_from(zero(), alice(), carol(), 1), Err(Error::InsufficientAllowance));
    assert_eq!(t.allowance(alice(), carol()), 5);
    assert_eq!(t.balance_of(alice()), 100);
    assert_eq!(t.balance_of(zero()), 0);
}

#[test]
fn concrete_delegated_scenario() {
    let c = alice();
    let s = carol();
    let d = zero();
    let mut t = Token::new(4294967000, c);
    t.approve(c, s, 1000000).unwrap();
    assert_eq!(t.transfer_from(s, c, d, 69), Ok(()));
    assert_eq!(t.balance_of(d), 69);
    assert_eq!(t.balance_of(c), 4294966931);
    assert_eq!(t.allowance(c, s), 999931);
}

#[test]
fn events_record_commands() {
    let mut t = Token::new(100, alice());
    t.approve(alice(), carol(), 9).unwrap();
    t.transfer_from(carol(), alice(), zero(), 4).unwrap();
    let events = t.take_events();
    assert_eq!(
        events,
        vec![
            Event::Transfer(Transfer { from: None, to: Some(alice()), value: 100 }),
            Event::Approval(Approval { owner: alice(), spender: carol(), value: 9 }),
            Event::Transfer(Transfer { from: Some(alice()), to: Some(zero()), value: 4 }),
        ]
    );
    assert!(t.take_events().is_empty());
    assert_eq!(t.balance_of(alice()), 96);
}
