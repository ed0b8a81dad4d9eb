use vstd::prelude::*;

verus! {

/// The whole amount, in percent.
pub const FULL_PERCENT: u128 = 100;

/// The largest fee percentage that an item or a registry may carry.
pub const MAX_FEE_PERCENT: u128 = 100;

/// What the recipient of a release gets: the amount is divided by a hundred
/// first, and only then multiplied by the recipient's percentage, so any
/// remainder of the division goes to the owner.
pub open spec fn recipient_share(amount: int, fee_percent: int) -> int {
    (amount / 100) * (100 - fee_percent)
}

/// What the owner of the registry keeps as its fee: all that the recipient
/// does not get.
pub open spec fn owner_share(amount: int, fee_percent: int) -> int {
    amount - recipient_share(amount, fee_percent)
}

/// Splits `amount` between a recipient and the owner, who takes
/// `fee_percent` percent (rounded in the owner's favour).
/// Returns `(recipient's share, owner's share)`; the two add up to `amount`.
pub fn split(amount: u128, fee_percent: u128) -> (r: (u128, u128))
    requires
        fee_percent <= MAX_FEE_PERCENT,
    ensures
        r.0 == recipient_share(amount as int, fee_percent as int),
        r.1 == owner_share(amount as int, fee_percent as int),
        r.0 + r.1 == amount,
{
    let hundreds = amount / FULL_PERCENT;
    let keep = FULL_PERCENT - fee_percent;
    assert(hundreds * keep <= hundreds * 100) by (nonlinear_arith)
        requires
            keep <= 100,
    ;
    assert(hundreds * 100 <= amount) by (nonlinear_arith)
        requires
            hundreds == amount / 100,
    ;
    let to_recipient = hundreds * keep;
    let to_owner = amount - to_recipient;
    (to_recipient, to_owner)
}

/// The two shares of a split always add up to the amount split, and neither
/// is negative: no value is created or lost.
pub proof fn lemma_split_conserves(amount: int, fee_percent: int)
    requires
        0 <= amount,
        0 <= fee_percent <= 100,
    ensures
        recipient_share(amount, fee_percent) + owner_share(amount, fee_percent) == amount,
        0 <= recipient_share(amount, fee_percent) <= amount,
        0 <= owner_share(amount, fee_percent) <= amount,
{
    let hundreds = amount / 100;
    assert(0 <= hundreds * (100 - fee_percent) <= hundreds * 100) by (nonlinear_arith)
        requires
            0 <= fee_percent <= 100,
            0 <= hundreds,
    ;
    assert(hundreds * 100 <= amount) by (nonlinear_arith)
        requires
            hundreds == amount / 100,
            0 <= amount,
    ;
}

} // verus!
