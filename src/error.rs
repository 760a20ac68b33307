use vstd::prelude::*;

verus! {

/// A fault reported by the virtual controller.
#[derive(Clone, Copy, Debug, PartialEq, Eq, Structural)]
pub enum PlicError {
    /// The access was not exactly four bytes wide.
    InvalidWidth,
    /// The decoded context id is not below the number of contexts.
    InvalidContext,
    /// The offset lies in no register of the controller.
    UnmappedRegister,
    /// The host controller's register could not be accessed.
    HostAccessFailure,
    /// The configured window does not cover every context's control registers.
    ConstructionRangeError,
}

} // verus!
