use vstd::prelude::*;

verus! {

/// What can go wrong in a device operation or while the fleet starts.
#[derive(Clone, Copy, Debug, PartialEq, Eq, Structural)]
pub enum VdevError {
    /// An offset, or an offset plus a length, has no in-memory index.
    InvalidOffset,
    /// The buffer could not be grown.
    OutOfMemory,
    /// The configured device count is malformed or out of range.
    InvalidConfig,
    /// The host refused to expose a device under its name.
    RegistrationFailed,
}

} // verus!
