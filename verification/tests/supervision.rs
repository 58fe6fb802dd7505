//! Tests for the supervision rules: polling, the restart decision, launch
//! parameters, and end-to-end command scenarios driven against a stub worker
//! whose identity is a plain number.

use worker_supervisor::launch::{
    choose_script_path, effective_limit, launch_args, state_file_name, worker_program,
};
use worker_supervisor::request::{render_request_line, Command};
use worker_supervisor::response::{decode_tick, WorkerError};
use worker_supervisor::supervisor::{poll_says_alive, str_eq, PollOutcome, WorkerSlot};

#[test]
fn poll_outcomes() {
    assert!(poll_says_alive(PollOutcome::StillRunning));
    assert!(!poll_says_alive(PollOutcome::Exited));
    assert!(!poll_says_alive(PollOutcome::PollFailed));
}

#[test]
fn string_equality() {
    assert!(str_eq("", ""));
    assert!(str_eq("/data/game_state.json", "/data/game_state.json"));
    assert!(!str_eq("/data/game_state.json", "/data/other.json"));
    assert!(!str_eq("abc", "ab"));
}

#[test]
fn empty_slot_needs_a_spawn() {
    let mut slot: WorkerSlot<u32> = WorkerSlot::new();
    assert!(slot.current().is_none());
    let kept = slot.retain_matching(false, "/data/game_state.json");
    assert!(!kept);
    assert!(slot.current().is_none());
}

#[test]
fn dead_worker_is_dropped_even_with_matching_path() {
    let mut slot: WorkerSlot<u32> = WorkerSlot::new();
    slot.install(1, "/data/game_state.json".to_string());
    let kept = slot.retain_matching(false, "/data/game_state.json");
    assert!(!kept);
    assert!(slot.current().is_none());
}

#[test]
fn live_worker_with_other_state_path_is_dropped() {
    let mut slot: WorkerSlot<u32> = WorkerSlot::new();
    slot.install(1, "/data/a.json".to_string());
    let kept = slot.retain_matching(true, "/data/b.json");
    assert!(!kept);
    assert!(slot.current().is_none());
}

#[test]
fn live_matching_worker_is_kept() {
    let mut slot: WorkerSlot<u32> = WorkerSlot::new();
    slot.install(9, "/data/a.json".to_string());
    let kept = slot.retain_matching(true, "/data/a.json");
    assert!(kept);
    let entry = slot.current().unwrap();
    assert_eq!(entry.handle, 9);
    assert_eq!(entry.state_path, "/data/a.json");
}

/// One simulated command round against a stub worker that echoes
/// `{"ok":true,"day":<multiplier>}` for any tick request. Returns the decoded
/// day and the identity of the worker that served the request.
fn stub_tick_round(
    slot: &mut WorkerSlot<u32>,
    next_identity: &mut u32,
    alive: bool,
    multiplier: u32,
) -> (Result<u64, WorkerError>, u32) {
    let path = "/data/game_state.json";
    let kept = slot.retain_matching(alive, path);
    if !kept {
        *next_identity += 1;
        slot.install(*next_identity, path.to_string());
    }
    let identity = slot.current().unwrap().handle;
    let request = render_request_line(&Command::Tick { multiplier });
    slot.begin_exchange();
    // The stub worker reads the request line and echoes the multiplier back.
    let parsed: serde_json::Value = serde_json::from_str(&request).unwrap();
    let echoed = parsed.get("multiplier").and_then(|m| m.as_u64()).unwrap();
    let response = format!("{{\"ok\":true,\"day\":{}}}\n", echoed);
    let result = decode_tick(response.len(), &response);
    slot.end_exchange();
    (result, identity)
}

#[test]
fn repeated_ticks_reuse_the_same_worker() {
    let mut slot: WorkerSlot<u32> = WorkerSlot::new();
    let mut next_identity: u32 = 0;
    let (first, id_first) = stub_tick_round(&mut slot, &mut next_identity, false, 3);
    assert_eq!(first, Ok(3));
    let (second, id_second) = stub_tick_round(&mut slot, &mut next_identity, true, 5);
    assert_eq!(second, Ok(5));
    assert_eq!(id_first, id_second);
    assert_eq!(next_identity, 1);
}

#[test]
fn crash_is_detected_on_the_next_call_and_respawned() {
    let mut slot: WorkerSlot<u32> = WorkerSlot::new();
    let path = "/data/game_state.json";

    // First call: the worker accepts the request, then closes its output
    // before answering; the read returns zero bytes.
    let kept = slot.retain_matching(false, path);
    assert!(!kept);
    slot.install(1, path.to_string());
    let _request = render_request_line(&Command::Tick { multiplier: 2 });
    slot.begin_exchange();
    let result = decode_tick(0, "");
    slot.end_exchange();
    assert_eq!(result, Err(WorkerError::Ended));

    // The stub process has exited; the next call observes that, respawns,
    // and succeeds.
    let mut next_identity: u32 = 1;
    let (second, identity) = stub_tick_round(&mut slot, &mut next_identity, false, 4);
    assert_eq!(second, Ok(4));
    assert_eq!(identity, 2);
}

#[test]
fn script_path_resolution() {
    assert_eq!(
        choose_script_path("/res/main.py".to_string(), true, "/src/main.py".to_string(), true),
        Ok("/res/main.py".to_string())
    );
    assert_eq!(
        choose_script_path("/res/main.py".to_string(), false, "/src/main.py".to_string(), true),
        Ok("/src/main.py".to_string())
    );
    let err =
        choose_script_path("/res/main.py".to_string(), false, "/src/main.py".to_string(), false)
            .unwrap_err();
    assert_eq!(err, WorkerError::ScriptNotFound("/src/main.py".to_string()));
    assert_eq!(err.message(), "python script not found: /src/main.py");
}

#[test]
fn launch_parameters() {
    let args = launch_args("/src/main.py", "/data/game_state.json");
    assert_eq!(
        args,
        vec![
            "-u".to_string(),
            "/src/main.py".to_string(),
            "--state".to_string(),
            "/data/game_state.json".to_string(),
            "--server".to_string(),
        ]
    );
    assert_eq!(worker_program(), "python");
    assert_eq!(state_file_name(), "game_state.json");
}

#[test]
fn logs_limit_defaults_to_twenty() {
    assert_eq!(effective_limit(Some(5)), 5);
    assert_eq!(effective_limit(None), 20);
}
