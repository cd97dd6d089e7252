//! The veto overlay: who may veto, for how long a passed proposal is held
//! back, and what the vetoer may do meanwhile.

use vstd::prelude::*;
use crate::status::Status;
use crate::time::Duration;

verus! {

/// Why a veto, or an execution during the timelock, is refused.
#[derive(Clone, Copy, Debug, PartialEq, Eq, Structural)]
pub enum VetoError {
    /// The proposal is in a state that cannot be vetoed.
    InvalidProposalStatus { status: Status },
    /// The vetoer may not execute before the timelock has run out.
    NoEarlyExecute,
    /// No veto is configured.
    NoVetoConfiguration,
    /// The proposal is timelocked and cannot be executed.
    Timelocked,
    /// The timelock has run out.
    TimelockExpired,
    /// The timelock is not counted in the unit of the voting period.
    TimelockDurationUnitMismatch,
    /// Only the vetoer may veto.
    Unauthorized,
}

/// Veto settings, as a proposal snapshots them at creation.
#[derive(Debug, PartialEq, Eq)]
pub struct VetoConfig {
    /// How long a passed proposal is held back after its voting period.
    pub timelock_duration: Duration,
    /// The address that may veto.
    pub vetoer: String,
    /// Whether the vetoer may execute a proposal during the timelock.
    pub early_execute: bool,
    /// Whether the vetoer may veto a proposal that is still open.
    pub veto_before_passed: bool,
}

impl Clone for VetoConfig {
    fn clone(&self) -> (r: Self)
        ensures
            r == *self,
    {
        VetoConfig {
            timelock_duration: self.timelock_duration,
            vetoer: self.vetoer.clone(),
            early_execute: self.early_execute,
            veto_before_passed: self.veto_before_passed,
        }
    }
}

impl VetoConfig {
    /// Checks that the timelock is counted in the unit of the voting period.
    pub fn validate(&self, max_voting_period: &Duration) -> (r: Result<(), VetoError>)
        ensures
            r == if self.timelock_duration.same_unit(*max_voting_period) {
                Ok::<(), VetoError>(())
            } else {
                Err(VetoError::TimelockDurationUnitMismatch)
            },
    {
        if self.timelock_duration.has_same_unit(max_voting_period) {
            Ok(())
        } else {
            Err(VetoError::TimelockDurationUnitMismatch)
        }
    }

    /// Passes where the vetoer may execute during the timelock.
    pub fn check_early_execute_enabled(&self) -> (r: Result<(), VetoError>)
        ensures
            r == if self.early_execute {
                Ok::<(), VetoError>(())
            } else {
                Err(VetoError::NoEarlyExecute)
            },
    {
        if self.early_execute {
            Ok(())
        } else {
            Err(VetoError::NoEarlyExecute)
        }
    }

    /// Passes where `sender` is the vetoer.
    pub fn check_is_vetoer(&self, sender: &String) -> (r: Result<(), VetoError>)
        ensures
            r == if self.vetoer@ == sender@ {
                Ok::<(), VetoError>(())
            } else {
                Err(VetoError::Unauthorized)
            },
    {
        if self.vetoer == *sender {
            Ok(())
        } else {
            Err(VetoError::Unauthorized)
        }
    }
}

} // verus!
