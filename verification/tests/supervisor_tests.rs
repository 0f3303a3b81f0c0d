use sidecar_supervisor::config::Platform;
use sidecar_supervisor::error::SupervisorError;
use sidecar_supervisor::locator::ResolvedCandidate;
use sidecar_supervisor::supervisor::{run_startup, SidecarSlot, StartupEnv};

fn found(path: &str) -> ResolvedCandidate {
    ResolvedCandidate { path: path.to_string(), exists: true }
}

fn missing(path: &str) -> ResolvedCandidate {
    ResolvedCandidate { path: path.to_string(), exists: false }
}

fn base_env() -> StartupEnv {
    StartupEnv {
        platform: Platform::Unix,
        dir_candidates: vec![
            missing("/app/next-standalone"),
            found("/app/resources/next-standalone"),
        ],
        entry_script_exists: true,
        node_candidates: vec![
            found("/app/node-runtime/bin/node"),
            missing("/app/resources/node-runtime/bin/node"),
        ],
        override_value: None,
        override_exists: false,
        spawn_result: Ok(41),
        connects: vec![true],
    }
}

#[test]
fn kill_is_idempotent_under_a_double_kill_race() {
    let mut slot = SidecarSlot::new();
    slot.store(7);
    // Two kills in immediate succession, as when a probe-timeout kill races
    // a close-triggered kill: the process is handed out to be terminated at
    // most once, and the slot is empty both times.
    let first = slot.take_for_kill();
    let second = slot.take_for_kill();
    assert_eq!(first, Some(7));
    assert_eq!(second, None);
    assert_eq!(slot.child, None);
}

#[test]
fn kill_on_an_empty_slot_is_a_no_op() {
    let mut slot = SidecarSlot::new();
    assert_eq!(slot.take_for_kill(), None);
    assert_eq!(slot.child, None);
}

#[test]
fn scenario_missing_entry_script_fails_without_spawn_or_probe() {
    let mut env = base_env();
    env.entry_script_exists = false;
    let mut slot = SidecarSlot::new();
    let report = run_startup(env, &mut slot);
    assert!(!report.spawn_attempted);
    assert!(!report.probe_attempted);
    assert_eq!(report.killed, None);
    assert_eq!(slot.child, None);
    let err = report.outcome.unwrap_err();
    assert_eq!(
        err.message(),
        "Missing Next sidecar at \"/app/resources/next-standalone/server.js\". \
         Run `npm run tauri:prepare` before building Tauri."
    );
}

#[test]
fn scenario_no_resource_dir_fails_without_spawn() {
    let mut env = base_env();
    env.dir_candidates = vec![
        missing("/app/next-standalone"),
        missing("/app/resources/next-standalone"),
    ];
    let mut slot = SidecarSlot::new();
    let report = run_startup(env, &mut slot);
    assert!(!report.spawn_attempted);
    assert_eq!(report.outcome.unwrap_err(), SupervisorError::ResourceDirUnresolved);
    assert_eq!(slot.child, None);
}

#[test]
fn scenario_nothing_listens_probe_exhausts_timeout_and_child_is_killed() {
    let mut env = base_env();
    env.spawn_result = Ok(23);
    env.connects = vec![];
    let mut slot = SidecarSlot::new();
    let report = run_startup(env, &mut slot);
    assert!(report.spawn_attempted);
    assert!(report.probe_attempted);
    assert_eq!(report.outcome.unwrap_err(), SupervisorError::ReadinessTimeout);
    // The half-started child is handed out for the kill, and the slot ends
    // empty.
    assert_eq!(report.killed, Some(23));
    assert_eq!(slot.child, None);
}

#[test]
fn scenario_listener_appears_within_a_second_and_close_kills_once() {
    let mut env = base_env();
    env.spawn_result = Ok(99);
    // Nothing listens for the first five polls (750 ms), then the port opens.
    env.connects = vec![false, false, false, false, false, true];
    let mut slot = SidecarSlot::new();
    let report = run_startup(env, &mut slot);
    assert!(report.probe_attempted);
    assert_eq!(report.killed, None);
    let plan = report.outcome.unwrap();
    assert_eq!(plan.program, "/app/node-runtime/bin/node");
    assert_eq!(slot.child, Some(99));
    // A later window-close event kills the still-running process exactly
    // once; the racing second kill finds the slot already empty.
    assert_eq!(slot.take_for_kill(), Some(99));
    assert_eq!(slot.take_for_kill(), None);
    assert_eq!(slot.child, None);
}

#[test]
fn scenario_relative_override_is_ignored_and_fallback_is_used() {
    let mut env = base_env();
    env.node_candidates = vec![
        missing("/app/node-runtime/bin/node"),
        missing("/app/resources/node-runtime/bin/node"),
    ];
    env.override_value = Some("relative/path/to/node".to_string());
    env.override_exists = true;
    let mut slot = SidecarSlot::new();
    let report = run_startup(env, &mut slot);
    let plan = report.outcome.unwrap();
    assert_eq!(plan.program, "/opt/homebrew/bin/node");
    assert_eq!(plan.script, "/app/resources/next-standalone/server.js");
}

#[test]
fn scenario_spawn_refused_by_the_os_aborts_startup() {
    let mut env = base_env();
    env.spawn_result = Err("Permission denied".to_string());
    let mut slot = SidecarSlot::new();
    let report = run_startup(env, &mut slot);
    assert!(report.spawn_attempted);
    assert!(!report.probe_attempted);
    let err = report.outcome.unwrap_err();
    assert_eq!(err.message(), "Failed to start Next sidecar: Permission denied");
    assert_eq!(slot.child, None);
}
