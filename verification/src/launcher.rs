//! Process Launcher: assemble the full command for the sidecar — runtime
//! binary, entry script argument, working directory, and the three
//! environment variables — or report exactly why no command can be built.
//! The spawn itself is the host's; a launch plan is everything it needs.

use vstd::prelude::*;
use vstd::string::StringExecFns;
use crate::config::{
    Platform, spec_path_sep, path_sep, spec_sidecar_host, sidecar_host, spec_sidecar_port_text,
    sidecar_port_text, spec_fallback_runtime, fallback_runtime,
};
use crate::error::SupervisorError;
use crate::locator::{ResolvedCandidate, no_candidate_exists, first_existing, locate_first};
use crate::trusted_override::{spec_override_accepted, resolve_override};

verus! {

/// Everything the host needs to spawn the sidecar: the program, its single
/// argument, the working directory, and the environment the child gets.
#[derive(Clone, Debug, PartialEq, Eq)]
pub struct LaunchPlan {
    /// Runtime binary to execute.
    pub program: String,
    /// Entry script, the program's sole argument.
    pub script: String,
    /// Working directory: the sidecar resource directory.
    pub working_dir: String,
    /// Value for the bind-host environment variable.
    pub host_env: String,
    /// Value for the bind-port environment variable.
    pub port_env: String,
    /// Value for the database connection-string environment variable.
    pub database_url: String,
}

/// `name` joined onto directory `dir` with the platform's separator.
pub open spec fn spec_join(p: Platform, dir: Seq<char>, name: Seq<char>) -> Seq<char> {
    dir + spec_path_sep(p) + name
}

pub fn join_path(p: Platform, dir: &String, name: &str) -> (r: String)
    ensures
        r@ == spec_join(p, dir@, name@),
{
    let mut r = dir.clone();
    r.append(path_sep(p));
    r.append(name);
    r
}

/// The runtime the plan must select, given the bundled-runtime candidates
/// and the override: a bundled runtime wins, then an accepted override,
/// then the platform fallback.
pub open spec fn spec_runtime_selected(
    p: Platform,
    node_candidates: Seq<ResolvedCandidate>,
    override_value: Option<String>,
    override_exists: bool,
    runtime: Seq<char>,
) -> bool {
    &&& forall|i: int| first_existing(node_candidates, i) ==> runtime == node_candidates[i].path@
    &&& no_candidate_exists(node_candidates)
        && spec_override_accepted(p, override_value, override_exists)
        ==> runtime == override_value->0@
    &&& no_candidate_exists(node_candidates)
        && !spec_override_accepted(p, override_value, override_exists)
        ==> runtime == spec_fallback_runtime(p)
}

/// Select the runtime binary in strict priority order: bundled runtime,
/// then trusted override, then the hardcoded platform fallback.
pub fn select_runtime(
    p: Platform,
    node_candidates: &Vec<ResolvedCandidate>,
    override_value: Option<String>,
    override_exists: bool,
) -> (r: String)
    ensures
        spec_runtime_selected(p, node_candidates@, override_value, override_exists, r@),
{
    match locate_first(node_candidates) {
        Option::Some(i) => {
            proof {
                assert forall|j: int| first_existing(node_candidates@, j)
                    implies node_candidates@[i as int].path@ == node_candidates@[j].path@ by {
                    crate::locator::lemma_first_existing_unique(node_candidates@, i as int, j);
                }
            }
            node_candidates[i].path.clone()
        }
        Option::None => {
            match resolve_override(p, override_value, override_exists) {
                Option::Some(path) => path,
                Option::None => String::from_str(fallback_runtime(p)),
            }
        }
    }
}

/// The plan `plan` is the one launch allows for sidecar directory `dir`.
pub open spec fn spec_plan_for(
    plan: LaunchPlan,
    p: Platform,
    dir: Seq<char>,
    node_candidates: Seq<ResolvedCandidate>,
    override_value: Option<String>,
    override_exists: bool,
) -> bool {
    &&& spec_runtime_selected(p, node_candidates, override_value, override_exists, plan.program@)
    &&& plan.script@ == spec_join(p, dir, "server.js"@)
    &&& plan.working_dir@ == dir
    &&& plan.host_env@ == spec_sidecar_host()
    &&& plan.port_env@ == spec_sidecar_port_text()
    &&& plan.database_url@ == "file:"@ + spec_join(p, dir, "dev.db"@)
}

/// Build the launch plan, or the error that aborts startup.
///
/// `dir_candidates` are the resolved sidecar-directory candidates in
/// priority order; `entry_script_exists` is the host's existence check for
/// the entry script inside the first existing directory candidate (ignored
/// when none exists). Fails exactly when no directory candidate exists or
/// the entry script is absent; otherwise the plan is fully determined by
/// the inputs.
pub fn plan_launch(
    p: Platform,
    dir_candidates: &Vec<ResolvedCandidate>,
    entry_script_exists: bool,
    node_candidates: &Vec<ResolvedCandidate>,
    override_value: Option<String>,
    override_exists: bool,
) -> (r: Result<LaunchPlan, SupervisorError>)
    ensures
        r is Err <==> no_candidate_exists(dir_candidates@) || !entry_script_exists,
        no_candidate_exists(dir_candidates@) ==> (r matches Err(e)
            && e is ResourceDirUnresolved),
        !no_candidate_exists(dir_candidates@) && !entry_script_exists ==> (r matches Err(e)
            && e matches SupervisorError::MissingEntryScript { script_path }
            && (forall|i: int| first_existing(dir_candidates@, i)
                ==> script_path@ == spec_join(p, dir_candidates@[i].path@, "server.js"@))),
        r matches Ok(plan) ==> (forall|i: int| first_existing(dir_candidates@, i)
            ==> spec_plan_for(plan, p, dir_candidates@[i].path@, node_candidates@,
                    override_value, override_exists)),
{
    let dir_idx = match locate_first(dir_candidates) {
        Option::None => {
            return Result::Err(SupervisorError::ResourceDirUnresolved);
        }
        Option::Some(i) => i,
    };
    proof {
        assert forall|j: int| first_existing(dir_candidates@, j)
            implies dir_candidates@[dir_idx as int].path@ == dir_candidates@[j].path@ by {
            crate::locator::lemma_first_existing_unique(dir_candidates@, dir_idx as int, j);
        }
    }
    let dir = dir_candidates[dir_idx].path.clone();
    let script = join_path(p, &dir, "server.js");
    let db_path = join_path(p, &dir, "dev.db");
    if !entry_script_exists {
        return Result::Err(SupervisorError::MissingEntryScript { script_path: script });
    }
    let program = select_runtime(p, node_candidates, override_value, override_exists);
    let mut database_url = String::from_str("file:");
    database_url.append(db_path.as_str());
    Result::Ok(LaunchPlan {
        program,
        script,
        working_dir: dir,
        host_env: String::from_str(sidecar_host()),
        port_env: String::from_str(sidecar_port_text()),
        database_url,
    })
}

} // verus!
