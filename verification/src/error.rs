use vstd::prelude::*;

verus! {

/// The arithmetic operation that overflowed.
#[derive(Clone, Copy, Debug, PartialEq, Eq, Structural)]
pub enum OverflowOperation {
    Mul,
    Sub,
}

/// A failure of the chain's standard library: storage, serialisation,
/// arithmetic, or a plain message.
#[derive(Clone, Debug, PartialEq)]
pub enum StdFailure {
    /// An item that was read is not in storage.
    NotFound { kind: String },
    /// Stored bytes did not parse into the expected type.
    ParseErr { target_type: String, msg: String },
    /// A value could not be serialised.
    SerializeErr { source_type: String, msg: String },
    /// Checked arithmetic on amounts overflowed.
    Overflow { operation: OverflowOperation, operand1: u128, operand2: u128 },
    /// Any other failure, by its message.
    GenericErr { msg: String },
}

/// What a step of the contract can fail with.
#[derive(Clone, Debug, PartialEq)]
pub enum ContractError {
    Std(StdFailure),
    Unauthorized {},
    InsufficientFunds {},
    BetTooSmall { min: u128 },
    GameNotAvailable {},
    GameTimeout {},
    CannotJoinOwnGame {},
}

} // verus!
