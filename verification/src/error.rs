//! The supervisor's error taxonomy. Every startup-phase error is fatal to
//! application launch; kill-path failures are swallowed by the host and
//! never appear here.

use vstd::prelude::*;
use vstd::string::StringExecFns;

verus! {

/// Why startup failed.
#[derive(Clone, Debug, PartialEq, Eq)]
pub enum SupervisorError {
    /// No sidecar resource directory candidate exists.
    ResourceDirUnresolved,
    /// The sidecar directory exists but the entry script is absent: a
    /// build/packaging precondition was not met, not a runtime fault.
    MissingEntryScript { script_path: String },
    /// The operating system refused to create the child process; `detail`
    /// carries the underlying OS error text.
    SpawnFailed { detail: String },
    /// The guard around the process slot was poisoned.
    StateLockPoisoned,
    /// The child spawned but never became reachable within the deadline.
    ReadinessTimeout,
}

impl SupervisorError {
    /// The user-facing message for this error.
    pub open spec fn spec_message(&self) -> Seq<char> {
        match self {
            SupervisorError::ResourceDirUnresolved => "Failed to resolve sidecar resources directory"@,
            SupervisorError::MissingEntryScript { script_path } => "Missing Next sidecar at \""@
                + script_path@ + "\". Run `npm run tauri:prepare` before building Tauri."@,
            SupervisorError::SpawnFailed { detail } => "Failed to start Next sidecar: "@ + detail@,
            SupervisorError::StateLockPoisoned => "Failed to lock sidecar state"@,
            SupervisorError::ReadinessTimeout => "Next sidecar did not become healthy in time"@,
        }
    }

    pub fn message(&self) -> (r: String)
        ensures
            r@ == self.spec_message(),
    {
        match self {
            SupervisorError::ResourceDirUnresolved => {
                String::from_str("Failed to resolve sidecar resources directory")
            }
            SupervisorError::MissingEntryScript { script_path } => {
                let mut m = String::from_str("Missing Next sidecar at \"");
                m.append(script_path.as_str());
                m.append("\". Run `npm run tauri:prepare` before building Tauri.");
                m
            }
            SupervisorError::SpawnFailed { detail } => {
                let mut m = String::from_str("Failed to start Next sidecar: ");
                m.append(detail.as_str());
                m
            }
            SupervisorError::StateLockPoisoned => {
                String::from_str("Failed to lock sidecar state")
            }
            SupervisorError::ReadinessTimeout => {
                String::from_str("Next sidecar did not become healthy in time")
            }
        }
    }
}

} // verus!
