use custody::{split, Transfer};

#[test]
fn split_even_amount() {
    assert_eq!(split(1000, 10), (900, 100));
}

#[test]
fn split_rounds_before_multiplying() {
    assert_eq!(split(1050, 10), (900, 150));
}

#[test]
fn split_shares_sum_to_amount() {
    for amount in [0u128, 1, 99, 100, 101, 1050, 12345, u128::MAX] {
        for fee in [0u128, 1, 10, 33, 50, 99, 100] {
            let (a, b) = split(amount, fee);
            assert_eq!(a + b, amount);
        }
    }
}

#[test]
fn split_edges() {
    assert_eq!(split(0, 10), (0, 0));
    assert_eq!(split(99, 0), (0, 99));
    assert_eq!(split(500, 0), (500, 0));
    assert_eq!(split(500, 100), (0, 500));
}

#[test]
fn transfer_holds_receiver_and_amount() {
    let ts = vec![
        Transfer { receiver: "a".to_string(), amount: 3 },
        Transfer { receiver: "b".to_string(), amount: 4 },
    ];
    assert_eq!(ts.iter().map(|t| t.amount).sum::<u128>(), 7);
}
