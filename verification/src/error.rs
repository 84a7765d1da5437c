//! The ways in which an operation of the vault is rejected.
use vstd::prelude::*;

verus! {

/// Why an input was refused.
#[derive(Clone, Copy, Debug, PartialEq, Eq, Structural)]
pub enum InputFault {
    /// No funds of the base denomination came with a deposit.
    ZeroDeposit,
    /// A redemption was asked for while no claim token is outstanding.
    ZeroSupply,
    /// The three allocation weights do not add up to the fixed total.
    WeightTotal,
    /// The base denomination has no character to drop for the claim token's name.
    EmptyDenom,
    /// No companion token has been registered yet.
    TokenUnset,
    /// The amount left after tax was reported larger than the deposit itself.
    TaxExceedsDeposit,
}

/// Why a computation could not be carried out.
#[derive(Clone, Copy, Debug, PartialEq, Eq, Structural)]
pub enum ArithmeticFault {
    /// A swap rate is missing or zero, so a division by it is impossible.
    DivisionByZero,
    /// An intermediate or final value does not fit into 128 bits.
    Overflow,
    /// More claim tokens were to be burned than are outstanding.
    Underflow,
}

/// The failure of an operation. Every failure leaves the ledger as it was.
#[derive(Clone, Copy, Debug, PartialEq, Eq, Structural)]
pub enum ContractError {
    /// The caller may not perform the operation.
    Unauthorized,
    /// The request itself is not acceptable.
    InvalidInput(InputFault),
    /// The arithmetic of the request cannot be carried out.
    ArithmeticFailure(ArithmeticFault),
    /// A record was read from a ledger that does not hold it.
    NotInitialized,
}

} // verus!
