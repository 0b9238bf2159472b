//! The authorization gate: the checks on caller identity, on the pause
//! flag and on initialization that entry points run before anything else.

use crate::address::Address;
use crate::error::PaymasterError;
use vstd::prelude::*;

verus! {

/// `Unauthorized` unless the caller is the expected identity.
pub open spec fn caller_check(caller: Address, expected: Address) -> Result<(), PaymasterError> {
    if caller == expected {
        Ok(())
    } else {
        Err(PaymasterError::Unauthorized)
    }
}

/// `ContractPaused` while the pause flag is set.
pub open spec fn pause_check(paused: bool) -> Result<(), PaymasterError> {
    if paused {
        Err(PaymasterError::ContractPaused)
    } else {
        Ok(())
    }
}

/// `NotInitialized` before setup.
pub open spec fn initialized_check(initialized: bool) -> Result<(), PaymasterError> {
    if initialized {
        Ok(())
    } else {
        Err(PaymasterError::NotInitialized)
    }
}

/// `AlreadyInitialized` after setup.
pub open spec fn fresh_check(initialized: bool) -> Result<(), PaymasterError> {
    if initialized {
        Err(PaymasterError::AlreadyInitialized)
    } else {
        Ok(())
    }
}

/// `InvalidOperation` while sponsorship is switched off.
pub open spec fn sponsorship_check(enabled: bool) -> Result<(), PaymasterError> {
    if enabled {
        Ok(())
    } else {
        Err(PaymasterError::InvalidOperation)
    }
}

/// Fails `Unauthorized` if the calling identity differs from `expected`.
pub fn require_caller(caller: &Address, expected: &Address) -> (r: Result<(), PaymasterError>)
    ensures
        r == caller_check(*caller, *expected),
{
    if caller.equals(expected) {
        Ok(())
    } else {
        Err(PaymasterError::Unauthorized)
    }
}

/// Fails `ContractPaused` when the pause flag is set.
pub fn require_not_paused(paused: bool) -> (r: Result<(), PaymasterError>)
    ensures
        r == pause_check(paused),
{
    if paused {
        Err(PaymasterError::ContractPaused)
    } else {
        Ok(())
    }
}

/// Fails `NotInitialized` when the paymaster has not been set up.
pub fn require_initialized(initialized: bool) -> (r: Result<(), PaymasterError>)
    ensures
        r == initialized_check(initialized),
{
    if initialized {
        Ok(())
    } else {
        Err(PaymasterError::NotInitialized)
    }
}

/// Fails `AlreadyInitialized` when the paymaster has been set up.
pub fn require_not_initialized(initialized: bool) -> (r: Result<(), PaymasterError>)
    ensures
        r == fresh_check(initialized),
{
    if initialized {
        Err(PaymasterError::AlreadyInitialized)
    } else {
        Ok(())
    }
}

/// Fails `InvalidOperation` when the embedder's sponsorship switch is
/// off. An embedder that keeps such a switch asks this before it asks
/// for validation.
pub fn require_sponsorship_enabled(enabled: bool) -> (r: Result<(), PaymasterError>)
    ensures
        r == sponsorship_check(enabled),
{
    if enabled {
        Ok(())
    } else {
        Err(PaymasterError::InvalidOperation)
    }
}

} // verus!
