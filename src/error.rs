use vstd::prelude::*;

verus! {

/// What went wrong in an exchange with the store.
#[derive(Debug, Clone, Copy, PartialEq, Eq, Structural)]
pub enum EtcdError {
    /// The transport answered with a status other than success.
    RequestFailed(u16),
    /// A response does not hold what the call relies on.
    Format,
    /// A prefix bound cannot be computed for the key.
    Boundary,
}

} // verus!
