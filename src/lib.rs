//! Custodial holding and conditional release of funds: a fee-split
//! calculator, an escrow registry and a lottery registry, each driven by a
//! verified state machine.

pub mod error;
pub mod escrow;
pub mod fee;
pub mod lottery;
pub mod transfer;

pub use error::CustodyError;
pub use fee::{split, FULL_PERCENT, MAX_FEE_PERCENT};
pub use transfer::Transfer;
