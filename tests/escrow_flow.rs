use custody::escrow::{Escrow, Status};
use custody::CustodyError;

fn s(x: &str) -> String {
    x.to_string()
}

fn registry(fee: u128) -> Escrow {
    Escrow::init(Some(s("owner.near")), Some(fee), s("signer.near"), false).unwrap()
}

fn funded(fee: u128, amount: u128) -> Escrow {
    let mut e = registry(fee);
    let id = e
        .new(s("e1"), s("funder.near"), s("bene.near"), amount, None, &s("funder.near"), amount)
        .unwrap();
    assert_eq!(id, "e1");
    e
}

#[test]
fn test_init_contract() {
    let e = Escrow::init(None, None, s("signer.near"), false).unwrap();
    assert_eq!(e.get_owner_id(), "signer.near");
    assert_eq!(e.get_base_fee_percentage(), 0);
    assert_eq!(true, true);
}

#[test]
fn init_refusals() {
    assert!(matches!(
        Escrow::init(None, None, s("signer.near"), true),
        Err(CustodyError::StateConflict)
    ));
    assert!(matches!(
        Escrow::init(None, Some(101), s("signer.near"), false),
        Err(CustodyError::Validation)
    ));
    let e = Escrow::init(Some(s("o")), Some(100), s("signer.near"), false).unwrap();
    assert_eq!(e.get_owner_id(), "o");
    assert_eq!(e.get_base_fee_percentage(), 100);
}

#[test]
fn release_even_amount() {
    let mut e = funded(10, 1000);
    let ts = e.release_deposit(s("e1"), &s("funder.near")).unwrap();
    assert_eq!(ts.len(), 2);
    assert_eq!(ts[0].receiver, "bene.near");
    assert_eq!(ts[0].amount, 900);
    assert_eq!(ts[1].receiver, "owner.near");
    assert_eq!(ts[1].amount, 100);
    assert_eq!(e.items[0].current_amount, 0);
    assert_eq!(e.items[0].status, Status::PayedOff);
}

#[test]
fn release_rounds_in_owner_favour() {
    let mut e = funded(10, 1050);
    let ts = e.release_deposit(s("e1"), &s("owner.near")).unwrap();
    assert_eq!(ts[0].amount, 900);
    assert_eq!(ts[1].amount, 150);
    assert_eq!(ts[0].amount + ts[1].amount, 1050);
}

#[test]
fn release_decreases_by_what_it_sends() {
    let mut e = funded(7, 12345);
    let before = e.items[0].current_amount;
    let ts = e.release_deposit(s("e1"), &s("funder.near")).unwrap();
    let sent: u128 = ts.iter().map(|t| t.amount).sum();
    assert!(sent > 0);
    assert_eq!(e.items[0].current_amount, before - sent);
}

#[test]
fn deposit_mismatch_creates_nothing() {
    let mut e = registry(10);
    let r = e.new(s("e1"), s("funder.near"), s("bene.near"), 500, None, &s("funder.near"), 400);
    assert!(matches!(r, Err(CustodyError::Validation)));
    assert!(e.items.is_empty());
    assert_eq!(e.get_balance(s("e1")), None);
}

#[test]
fn new_refusals() {
    let mut e = registry(10);
    let f = s("funder.near");
    assert!(matches!(
        e.new(s("e1"), f.clone(), s("b"), 0, None, &f, 0),
        Err(CustodyError::Validation)
    ));
    assert!(matches!(
        e.new(s("e1"), f.clone(), s("b"), 10, Some(101), &f, 10),
        Err(CustodyError::Validation)
    ));
    assert!(matches!(
        e.new(s("e1"), f.clone(), s("b"), 10, None, &s("stranger"), 10),
        Err(CustodyError::Authorization)
    ));
    assert!(e.items.is_empty());
    let id = e.new(s("e1"), f.clone(), s("b"), 10, Some(20), &s("owner.near"), 10).unwrap();
    assert_eq!(id, "e1");
    assert_eq!(e.items[0].current_fee_percentage, 20);
    assert_eq!(e.items[0].status, Status::Active);
    assert_eq!(e.get_balance(s("e1")), Some(10));
}

#[test]
fn duplicate_create_keeps_existing() {
    let mut e = funded(10, 1000);
    let r = e.new(s("e1"), s("funder.near"), s("other.near"), 77, Some(5), &s("funder.near"), 77);
    assert!(matches!(r, Err(CustodyError::StateConflict)));
    assert_eq!(e.items.len(), 1);
    let item = &e.items[0];
    assert_eq!(item.beneficiary_account_id, "bene.near");
    assert_eq!(item.agreed_amount, 1000);
    assert_eq!(item.current_amount, 1000);
    assert_eq!(item.current_fee_percentage, 10);
}

#[test]
fn second_release_conflicts() {
    let mut e = funded(10, 1000);
    e.release_deposit(s("e1"), &s("funder.near")).unwrap();
    let r = e.release_deposit(s("e1"), &s("funder.near"));
    assert!(matches!(r, Err(CustodyError::StateConflict)));
    assert_eq!(e.items[0].current_amount, 0);
    assert_eq!(e.items[0].status, Status::PayedOff);
}

#[test]
fn release_refusals() {
    let mut e = funded(10, 1000);
    assert!(matches!(
        e.release_deposit(s("nope"), &s("owner.near")),
        Err(CustodyError::NotFound)
    ));
    assert!(matches!(
        e.release_deposit(s("e1"), &s("bene.near")),
        Err(CustodyError::Authorization)
    ));
    e.items[0].current_amount = 999;
    assert!(matches!(
        e.release_deposit(s("e1"), &s("owner.near")),
        Err(CustodyError::InsufficientFunds)
    ));
    assert_eq!(e.items[0].status, Status::Active);
}

#[test]
fn reimburse_returns_agreed_amount() {
    let mut e = funded(10, 1000);
    assert!(matches!(
        e.reimburse_funder(s("e1"), &s("funder.near")),
        Err(CustodyError::Authorization)
    ));
    let ts = e.reimburse_funder(s("e1"), &s("bene.near")).unwrap();
    assert_eq!(ts.len(), 1);
    assert_eq!(ts[0].receiver, "funder.near");
    assert_eq!(ts[0].amount, 1000);
    assert_eq!(e.items[0].current_amount, 0);
    assert_eq!(e.items[0].status, Status::Reimbursed);
    assert!(matches!(
        e.reimburse_funder(s("e1"), &s("owner.near")),
        Err(CustodyError::StateConflict)
    ));
    assert!(matches!(
        e.release_deposit(s("e1"), &s("owner.near")),
        Err(CustodyError::StateConflict)
    ));
}

#[test]
fn emergency_withdraw_keeps_status() {
    let mut e = funded(10, 1000);
    assert!(matches!(
        e.emergency_withdraw(s("e1"), &s("funder.near")),
        Err(CustodyError::Authorization)
    ));
    let ts = e.emergency_withdraw(s("e1"), &s("owner.near")).unwrap();
    assert_eq!(ts.len(), 1);
    assert_eq!(ts[0].receiver, "owner.near");
    assert_eq!(ts[0].amount, 1000);
    assert_eq!(e.items[0].current_amount, 0);
    assert_eq!(e.items[0].status, Status::Active);
    assert_eq!(e.get_balance(s("e1")), None);
    assert!(matches!(
        e.emergency_withdraw(s("zz"), &s("owner.near")),
        Err(CustodyError::NotFound)
    ));
}

#[test]
fn remove_only_after_terminal() {
    let mut e = funded(10, 1000);
    assert!(matches!(e.remove_item(s("e1"), &s("owner.near")), Err(CustodyError::StateConflict)));
    e.release_deposit(s("e1"), &s("owner.near")).unwrap();
    assert!(matches!(e.remove_item(s("e1"), &s("funder.near")), Err(CustodyError::Authorization)));
    assert!(e.remove_item(s("e1"), &s("owner.near")).is_ok());
    assert!(e.items.is_empty());
    assert!(matches!(e.remove_item(s("e1"), &s("owner.near")), Err(CustodyError::NotFound)));
}

#[test]
fn base_fee_changes() {
    let mut e = registry(10);
    assert!(matches!(
        e.set_base_fee_percentage(20, &s("funder.near")),
        Err(CustodyError::Authorization)
    ));
    assert!(matches!(
        e.set_base_fee_percentage(101, &s("owner.near")),
        Err(CustodyError::Validation)
    ));
    assert_eq!(e.set_base_fee_percentage(20, &s("owner.near")).unwrap(), 20);
    assert_eq!(e.get_base_fee_percentage(), 20);
    e.new(s("e2"), s("f"), s("b"), 300, None, &s("f"), 300).unwrap();
    assert_eq!(e.items[0].current_fee_percentage, 20);
}
