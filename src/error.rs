use vstd::prelude::*;

verus! {

/// The failures that construction and capability calls report.
#[derive(Debug, Clone, Copy, PartialEq, Eq, Structural)]
pub enum BindingError {
    /// A constructor argument has the wrong shape or type.
    ConstructionArgument,
    /// A capability was requested from a holder that was never populated.
    NotInitialized,
    /// A host-supplied callable raised, or returned a value of the wrong type.
    HostCall,
    /// A replacement value does not consist of exactly one character.
    CharacterDecode,
}

} // verus!
