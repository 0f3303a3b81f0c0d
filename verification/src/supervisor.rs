//! Lifecycle Supervisor: the process slot and its transitions, and the
//! whole startup sequence as one decision function over a modeled
//! environment. The host owns the slot under a mutual-exclusion lock and
//! performs the spawn, the connects, and the terminate-and-reap; the slot's
//! transitions here decide what it does.

use vstd::prelude::*;
use crate::config::{Platform, READINESS_TIMEOUT_MS, POLL_INTERVAL_MS};
use crate::error::SupervisorError;
use crate::launcher::{LaunchPlan, spec_plan_for, plan_launch};
use crate::locator::{ResolvedCandidate, no_candidate_exists, first_existing};
use crate::probe::{ProbeOutcome, spec_probe_reaches_ready, probe_outcome};

verus! {

/// The slot that owns the running child, identified by an opaque handle the
/// host chose at spawn time. At most one live handle exists at a time:
/// empty in the initial and terminal states, full exactly while the child
/// runs.
#[derive(Clone, Copy, Debug, PartialEq, Eq)]
pub struct SidecarSlot {
    pub child: Option<u64>,
}

/// One kill transition: whatever the slot held, it is empty afterwards,
/// and the held handle — the process the host must terminate and reap — is
/// handed out at most once.
pub open spec fn kill_transition(pre: SidecarSlot, post: SidecarSlot, victim: Option<u64>) -> bool {
    &&& post.child is None
    &&& victim == pre.child
}

impl SidecarSlot {
    /// The initial state: no process.
    pub fn new() -> (r: SidecarSlot)
        ensures
            r.child is None,
    {
        SidecarSlot { child: None }
    }

    /// NoProcess to Running: store the handle of a freshly spawned child.
    pub fn store(&mut self, handle: u64)
        requires
            old(self).child is None,
        ensures
            final(self).child == Some(handle),
    {
        self.child = Some(handle);
    }

    /// Running (or NoProcess) to NoProcess: clear the slot and hand back
    /// the handle to terminate, if one was present. The host terminates and
    /// reaps it best-effort; termination errors never travel back. Calling
    /// this on an empty slot is a no-op that hands back nothing.
    pub fn take_for_kill(&mut self) -> (victim: Option<u64>)
        ensures
            kill_transition(*old(self), *final(self), victim),
    {
        let victim = self.child;
        self.child = None;
        victim
    }
}

/// Kill is idempotent: of two successive kill transitions — a timeout-
/// triggered kill racing a close-triggered one, serialized by the host's
/// lock — only the first can hand out a process to terminate, and the slot
/// is empty after each.
pub proof fn lemma_kill_idempotent(
    s0: SidecarSlot,
    s1: SidecarSlot,
    v1: Option<u64>,
    s2: SidecarSlot,
    v2: Option<u64>,
)
    requires
        kill_transition(s0, s1, v1),
        kill_transition(s1, s2, v2),
    ensures
        v1 == s0.child,
        v2 is None,
        s1.child is None,
        s2.child is None,
{
}

/// Everything startup observes of the world, as the host would observe it:
/// resolved resource candidates, the override variable, what the OS would
/// answer to the spawn, and the connect outcome of each readiness attempt.
#[derive(Debug, PartialEq, Eq)]
pub struct StartupEnv {
    pub platform: Platform,
    /// Resolved sidecar-directory candidates, in priority order.
    pub dir_candidates: Vec<ResolvedCandidate>,
    /// Whether the entry script exists inside the first existing directory
    /// candidate (ignored when none exists).
    pub entry_script_exists: bool,
    /// Resolved bundled-runtime candidates, in priority order.
    pub node_candidates: Vec<ResolvedCandidate>,
    /// The override environment variable, or nothing when unset.
    pub override_value: Option<String>,
    /// Whether the path the override names exists on disk.
    pub override_exists: bool,
    /// The OS's answer to the spawn: a handle, or the error text.
    pub spawn_result: Result<u64, String>,
    /// Whether the `k`-th readiness connect attempt would succeed.
    pub connects: Vec<bool>,
}

/// A plan can be built from this environment, so a spawn is attempted.
pub open spec fn spec_launch_possible(env: StartupEnv) -> bool {
    !no_candidate_exists(env.dir_candidates@) && env.entry_script_exists
}

/// The readiness probe over this environment's connect schedule succeeds.
pub open spec fn spec_becomes_ready(env: StartupEnv) -> bool {
    spec_probe_reaches_ready(env.connects@, READINESS_TIMEOUT_MS, POLL_INTERVAL_MS)
}

/// What one startup attempt did.
#[derive(Debug, PartialEq, Eq)]
pub struct StartupReport {
    /// The plan of the now-running sidecar, or the fatal error.
    pub outcome: Result<LaunchPlan, SupervisorError>,
    /// A spawn was attempted: a launch plan could be built.
    pub spawn_attempted: bool,
    /// The readiness probe ran: the spawn went through.
    pub probe_attempted: bool,
    /// The handle handed to the host to terminate and reap, when the probe
    /// timed out on a spawned child. Nothing in every other case.
    pub killed: Option<u64>,
}

/// One startup attempt, exactly as the host drives it: build the plan,
/// spawn, store the handle, poll for readiness, and on timeout kill the
/// half-started child. Every failure aborts startup with its error; a
/// child is left running exactly when startup succeeds.
pub fn run_startup(env: StartupEnv, slot: &mut SidecarSlot) -> (r: StartupReport)
    requires
        old(slot).child is None,
    ensures
        r.spawn_attempted == spec_launch_possible(env),
        r.probe_attempted == (spec_launch_possible(env) && env.spawn_result is Ok),
        no_candidate_exists(env.dir_candidates@) ==> (r.outcome matches Err(e)
            && e is ResourceDirUnresolved),
        !no_candidate_exists(env.dir_candidates@) && !env.entry_script_exists ==> (r.outcome
            matches Err(e) && e is MissingEntryScript),
        (spec_launch_possible(env) && env.spawn_result is Err) ==> (r.outcome matches Err(e)
            && e matches SupervisorError::SpawnFailed { detail }
            && detail@ == env.spawn_result->Err_0@),
        r.probe_attempted && spec_becomes_ready(env) ==> (r.outcome matches Ok(plan)
            && final(slot).child == Some(env.spawn_result->Ok_0)
            && (forall|i: int| first_existing(env.dir_candidates@, i)
                ==> spec_plan_for(plan, env.platform, env.dir_candidates@[i].path@,
                        env.node_candidates@, env.override_value, env.override_exists))),
        r.probe_attempted && !spec_becomes_ready(env) ==> (r.outcome matches Err(e)
            && e is ReadinessTimeout && r.killed == Some(env.spawn_result->Ok_0)),
        r.outcome is Ok <==> r.probe_attempted && spec_becomes_ready(env),
        r.outcome is Ok <==> final(slot).child is Some,
        !(r.probe_attempted && !spec_becomes_ready(env)) ==> r.killed is None,
{
    let StartupEnv {
        platform,
        dir_candidates,
        entry_script_exists,
        node_candidates,
        override_value,
        override_exists,
        spawn_result,
        connects,
    } = env;
    let plan = match plan_launch(
        platform,
        &dir_candidates,
        entry_script_exists,
        &node_candidates,
        override_value,
        override_exists,
    ) {
        Result::Err(e) => {
            return StartupReport {
                outcome: Result::Err(e),
                spawn_attempted: false,
                probe_attempted: false,
                killed: None,
            };
        }
        Result::Ok(p) => p,
    };
    let handle = match spawn_result {
        Result::Err(detail) => {
            return StartupReport {
                outcome: Result::Err(SupervisorError::SpawnFailed { detail }),
                spawn_attempted: true,
                probe_attempted: false,
                killed: None,
            };
        }
        Result::Ok(h) => h,
    };
    slot.store(handle);
    match probe_outcome(&connects, READINESS_TIMEOUT_MS, POLL_INTERVAL_MS) {
        ProbeOutcome::Ready { .. } => StartupReport {
            outcome: Result::Ok(plan),
            spawn_attempted: true,
            probe_attempted: true,
            killed: None,
        },
        ProbeOutcome::TimedOut { .. } => {
            let victim = slot.take_for_kill();
            StartupReport {
                outcome: Result::Err(SupervisorError::ReadinessTimeout),
                spawn_attempted: true,
                probe_attempted: true,
                killed: victim,
            }
        }
    }
}

} // verus!
