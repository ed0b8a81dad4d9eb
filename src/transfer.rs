use vstd::prelude::*;

verus! {

/// An instruction to the host to move `amount` to the account `receiver`.
/// Operations return these in the order in which they are to be issued.
#[derive(Clone, Debug)]
pub struct Transfer {
    pub receiver: String,
    pub amount: u128,
}

/// The sum of the amounts of a sequence of transfers.
pub open spec fn total(transfers: Seq<Transfer>) -> int
    decreases transfers.len(),
{
    if transfers.len() == 0 {
        0
    } else {
        total(transfers.drop_last()) + transfers.last().amount
    }
}

/// Two transfers in a row move the sum of their amounts.
pub proof fn lemma_total_of_two(a: Transfer, b: Transfer)
    ensures
        total(seq![a, b]) == a.amount + b.amount,
{
    reveal_with_fuel(total, 3);
    assert(seq![a, b].drop_last() =~= seq![a]);
    assert(seq![a].drop_last() =~= Seq::<Transfer>::empty());
}

/// One transfer moves its amount.
pub proof fn lemma_total_of_one(a: Transfer)
    ensures
        total(seq![a]) == a.amount,
{
    reveal_with_fuel(total, 2);
    assert(seq![a].drop_last() =~= Seq::<Transfer>::empty());
}

} // verus!
