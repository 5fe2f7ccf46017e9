//! The ways in which a command can fail.

use vstd::prelude::*;

verus! {

/// Why a command was rejected. Every error aborts the whole command: no
/// state is changed and no message is emitted.
#[derive(Clone, Copy, Debug, PartialEq, Eq, Structural)]
pub enum ContractError {
    /// The caller is not a member of the owner set.
    Unauthorized,
    /// An owner to remove, or a chain setting to read, does not exist.
    NotFound,
    /// The number of argument values differs from the number of parameters.
    ArityMismatch,
    /// An argument value is of another kind than its parameter.
    TypeMismatch,
    /// An argument value does not fit the range of its parameter.
    ValueOutOfRange,
    /// An address-like input is malformed.
    InvalidPrincipal,
}

impl ContractError {
    /// The text shown to the caller for this error.
    pub fn message(&self) -> (text: &'static str)
        ensures
            text@ == self.spec_message(),
    {
        match self {
            ContractError::Unauthorized => "Unauthorized",
            ContractError::NotFound => "Not found",
            ContractError::ArityMismatch => "Arity mismatch",
            ContractError::TypeMismatch => "Type mismatch",
            ContractError::ValueOutOfRange => "Value out of range",
            ContractError::InvalidPrincipal => "Invalid principal",
        }
    }

    /// The text of `message`, as a sequence of characters.
    pub open spec fn spec_message(&self) -> Seq<char> {
        match self {
            ContractError::Unauthorized => "Unauthorized"@,
            ContractError::NotFound => "Not found"@,
            ContractError::ArityMismatch => "Arity mismatch"@,
            ContractError::TypeMismatch => "Type mismatch"@,
            ContractError::ValueOutOfRange => "Value out of range"@,
            ContractError::InvalidPrincipal => "Invalid principal"@,
        }
    }
}

} // verus!
