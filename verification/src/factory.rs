//! Makers of short-lived, single-use values.
use vstd::prelude::*;

verus! {

/// Makes a fresh value on each call: a unit of work for a command, a policy
/// context for an event.
pub trait Factory: Send + Sync {
    /// What the factory makes.
    type Output: Send;

    /// Makes one value. A failure is final for the call that asked.
    fn create(&self) -> Result<Self::Output, anyhow::Error>;
}

} // verus!
