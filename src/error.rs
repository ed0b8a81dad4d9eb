use vstd::prelude::*;

verus! {

/// Why an operation was refused. A refused operation changes nothing.
#[derive(PartialEq, Eq, Structural, Clone, Copy, Debug)]
pub enum CustodyError {
    /// An argument is out of range: a fee above a hundred percent, a zero
    /// amount, a deposit that differs from the agreed amount.
    Validation,
    /// The caller may not perform this operation on this item.
    Authorization,
    /// No item has this identifier.
    NotFound,
    /// The item is in the wrong state for the operation, or the identifier,
    /// participant or winner it would add is already there.
    StateConflict,
    /// The item holds less than the operation would have to pay out.
    InsufficientFunds,
}

} // verus!
