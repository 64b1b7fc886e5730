use vstd::prelude::*;

verus! {

/// Why an operation of the engine was refused.
///
/// Every refusal leaves the registry and the proposal as they were.
#[derive(Clone, Copy, Debug, PartialEq, Eq, Structural)]
pub enum MultisigError {
    /// The threshold is zero or exceeds the number of owners.
    InvalidThreshold,
    /// The owner list is empty.
    NoOwners,
    /// Some identity occurs twice in the owner list.
    DuplicateOwners,
    /// The given identity is not an owner of the registry.
    InvalidOwner,
    /// The owner set changed after the proposal was created.
    OwnerSetChanged,
    /// Fewer owners approved than the threshold asks for.
    NotEnoughSigners,
    /// The proposal was executed before.
    AlreadyExecuted,
}

} // verus!
