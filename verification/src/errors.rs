//! Errors of the scheduler controller. Each one is surfaced synchronously to
//! the caller and (except for a failed reload's reason) carries no payload;
//! none of them mutates the service state.

use vstd::prelude::*;
use vstd::string::StringExecFns;

verus! {

/// Why a controller operation was rejected.
#[derive(Debug, PartialEq, Eq)]
pub enum ControlError {
    /// `start` was called while the scheduler was already running.
    AlreadyRunning,
    /// `stop` was called while the scheduler was already stopped.
    AlreadyStopped,
    /// `add_target` was given a URL already present in the target list.
    DuplicateTarget,
    /// `remove_target` was given a URL no target has.
    TargetNotFound,
    /// `reload` was handed a failed load; the reason is kept verbatim.
    ReloadFailed(String),
}

impl ControlError {
    /// The human-readable text of this error.
    pub open spec fn message_spec(&self) -> Seq<char> {
        match self {
            ControlError::AlreadyRunning => "Already running"@,
            ControlError::AlreadyStopped => "Already stopped"@,
            ControlError::DuplicateTarget => "Target already exists"@,
            ControlError::TargetNotFound => "Target not found"@,
            ControlError::ReloadFailed(reason) => "Failed to reload targets: "@ + reason@,
        }
    }

    pub fn message(&self) -> (r: String)
        ensures
            r@ == self.message_spec(),
    {
        let mut s = String::new();
        match self {
            ControlError::AlreadyRunning => {
                s.append("Already running");
            },
            ControlError::AlreadyStopped => {
                s.append("Already stopped");
            },
            ControlError::DuplicateTarget => {
                s.append("Target already exists");
            },
            ControlError::TargetNotFound => {
                s.append("Target not found");
            },
            ControlError::ReloadFailed(reason) => {
                s.append("Failed to reload targets: ");
                s.append(reason.as_str());
            },
        }
        proof {
            assert(s@ =~= self.message_spec());
        }
        s
    }
}

} // verus!
