use custody::lottery::{random_in_range, Lottery, PrizeStatus, Status, SEED_BYTE_INDEX};
use custody::CustodyError;

fn s(x: &str) -> String {
    x.to_string()
}

fn seed(byte: u8) -> Vec<u8> {
    let mut v = vec![0u8; 32];
    v[SEED_BYTE_INDEX] = byte;
    v
}

fn with_players(n: usize) -> Lottery {
    let mut l = Lottery::init(Some(s("owner.near")), Some(10), s("signer.near"), false).unwrap();
    l.new(s("l1"), s("org.near"), 1000, None, &s("org.near"), 1000).unwrap();
    for name in ["alice.near", "bob.near", "carol.near", "dave.near"].iter().take(n) {
        let who = s(name);
        assert_eq!(l.add_participant(s("l1"), who.clone()).unwrap(), who);
    }
    l
}

#[test]
fn draw_scales_byte_by_count() {
    assert_eq!(random_in_range(200, 3), 2);
    assert_eq!(random_in_range(0, 3), 0);
    assert_eq!(random_in_range(255, 3), 2);
    assert_eq!(random_in_range(85, 3), 0);
    assert_eq!(random_in_range(86, 3), 1);
    assert_eq!(random_in_range(255, 1), 0);
    assert_eq!(random_in_range(255, 256), 255);
    assert_eq!(random_in_range(17, 0), 0);
}

#[test]
fn third_participant_wins_on_byte_200() {
    let mut l = with_players(3);
    let w = l.pick_random_winner(s("l1"), &seed(200)).unwrap();
    assert_eq!(w, "carol.near");
    assert_eq!(l.get_winner(s("l1")).unwrap(), Some(s("carol.near")));
    assert_eq!(l.items[0].status, Status::Over);
}

#[test]
fn winner_is_drawn_once() {
    let mut l = with_players(3);
    let w = l.pick_random_winner(s("l1"), &seed(10)).unwrap();
    assert_eq!(w, "alice.near");
    let r = l.pick_random_winner(s("l1"), &seed(250));
    assert!(matches!(r, Err(CustodyError::StateConflict)));
    assert_eq!(l.get_winner(s("l1")).unwrap(), Some(s("alice.near")));
}

#[test]
fn pick_refusals() {
    let mut l = with_players(0);
    assert!(matches!(
        l.pick_random_winner(s("l1"), &seed(1)),
        Err(CustodyError::StateConflict)
    ));
    assert!(matches!(
        l.pick_random_winner(s("nope"), &seed(1)),
        Err(CustodyError::NotFound)
    ));
    assert_eq!(l.get_winner(s("l1")).unwrap(), None);
    assert!(matches!(l.get_winner(s("nope")), Err(CustodyError::NotFound)));
}

#[test]
fn second_registration_is_refused() {
    let mut l = with_players(2);
    let r = l.add_participant(s("l1"), s("bob.near"));
    assert!(matches!(r, Err(CustodyError::StateConflict)));
    let names: Vec<&str> = l.items[0].participants.iter().map(|p| p.0.as_str()).collect();
    assert_eq!(names, vec!["alice.near", "bob.near"]);
    assert!(matches!(
        l.add_participant(s("nope"), s("x")),
        Err(CustodyError::NotFound)
    ));
}

#[test]
fn lottery_new_refusals() {
    let mut l = with_players(0);
    let o = s("org.near");
    assert!(matches!(l.new(s("l2"), o.clone(), 0, None, &o, 5), Err(CustodyError::Validation)));
    assert!(matches!(l.new(s("l2"), o.clone(), 5, None, &o, 0), Err(CustodyError::Validation)));
    assert!(matches!(l.new(s("l2"), o.clone(), 5, Some(101), &o, 5), Err(CustodyError::Validation)));
    assert!(matches!(
        l.new(s("l2"), o.clone(), 5, None, &s("x"), 5),
        Err(CustodyError::Authorization)
    ));
    assert!(matches!(l.new(s("l1"), o.clone(), 5, None, &o, 5), Err(CustodyError::StateConflict)));
    assert!(matches!(l.new(s("l2"), o.clone(), 5, None, &o, 4), Err(CustodyError::Validation)));
    assert_eq!(l.items.len(), 1);
    assert_eq!(l.items[0].agreed_prize_amount, 1000);
}

#[test]
fn prize_release_pays_winner_and_fee() {
    let mut l = with_players(3);
    assert!(matches!(
        l.release_prize_to_winner(s("l1"), &s("org.near")),
        Err(CustodyError::StateConflict)
    ));
    l.pick_random_winner(s("l1"), &seed(200)).unwrap();
    assert_eq!(l.get_balance(s("l1")), Some(1000));
    assert!(matches!(
        l.release_prize_to_winner(s("l1"), &s("carol.near")),
        Err(CustodyError::Authorization)
    ));
    let ts = l.release_prize_to_winner(s("l1"), &s("org.near")).unwrap();
    assert_eq!(ts.len(), 2);
    assert_eq!(ts[0].receiver, "carol.near");
    assert_eq!(ts[0].amount, 900);
    assert_eq!(ts[1].receiver, "owner.near");
    assert_eq!(ts[1].amount, 100);
    assert_eq!(l.items[0].current_prize_amount, 0);
    assert_eq!(l.items[0].prize_status, PrizeStatus::WinnerPayedOff);
    assert_eq!(l.items[0].status, Status::Closed);
    assert_eq!(l.get_balance(s("l1")), None);
    assert!(matches!(
        l.release_prize_to_winner(s("l1"), &s("owner.near")),
        Err(CustodyError::StateConflict)
    ));
}

#[test]
fn prize_release_needs_full_prize() {
    let mut l = with_players(1);
    l.pick_random_winner(s("l1"), &seed(0)).unwrap();
    l.items[0].current_prize_amount = 10;
    assert!(matches!(
        l.release_prize_to_winner(s("l1"), &s("owner.near")),
        Err(CustodyError::InsufficientFunds)
    ));
    assert_eq!(l.items[0].current_prize_amount, 10);
}

#[test]
fn field_map_of_a_lottery() {
    let mut l = with_players(2);
    let f = l.get_lottery(s("l1")).unwrap();
    let pairs: Vec<(&str, &str)> = f.iter().map(|(k, v)| (k.as_str(), v.as_str())).collect();
    assert_eq!(
        pairs,
        vec![
            ("lottery_id", "l1"),
            ("organiser_account_id", "org.near"),
            ("status", "New"),
            ("agreed_prize_amount", "1000"),
            ("prize_status", "DepositFunded"),
            ("winner_account_id", "none"),
            ("fee_percentage", "10"),
            ("participants_count", "2"),
        ]
    );
    l.pick_random_winner(s("l1"), &seed(255)).unwrap();
    let f = l.get_lottery(s("l1")).unwrap();
    assert_eq!(f[2].1, "Over");
    assert_eq!(f[5].1, "bob.near");
    assert!(matches!(l.get_lottery(s("nope")), Err(CustodyError::NotFound)));
}
