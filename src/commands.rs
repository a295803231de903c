pub mod init_command;

use crate::errors::AetherError;
use vstd::prelude::*;

verus! {

/// Outcome of a command that has no implementation yet.
pub fn fallback_command() -> (r: Result<(), AetherError>)
    ensures
        r matches Err(AetherError::NotImplemented),
{
    Err(AetherError::NotImplemented)
}

} // verus!
