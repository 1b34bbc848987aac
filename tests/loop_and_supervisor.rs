use mlw::command::{ConfigFile, RestartError};
use mlw::debounce::{should_trigger, Debouncer};
use mlw::events::{ChangeKind, EventLoop, LoopAction};
use mlw::supervisor::ScriptProcess;

const SEC: u64 = 1_000_000_000;

fn config(script_type: &str, delay: u64, ignore: Option<&str>) -> ConfigFile {
    ConfigFile {
        path: vec!["./src".to_string()],
        script_args: None,
        delay,
        verbose: Some(true),
        ignore_pattern: ignore.map(|s| s.to_string()),
        script_type: Some(script_type.to_string()),
    }
}

#[test]
fn event_at_window_boundary_is_rejected() {
    let mut d = Debouncer::new(0, 2);
    assert!(d.try_trigger(5 * SEC));
    assert!(!d.try_trigger(7 * SEC));
    assert!(d.try_trigger(7 * SEC + 1));
}

#[test]
fn first_event_counts_from_start() {
    let mut d = Debouncer::new(10 * SEC, 1);
    assert!(!d.try_trigger(10 * SEC + 500));
    assert!(!d.try_trigger(11 * SEC));
    assert!(d.try_trigger(11 * SEC + 1));
}

#[test]
fn zero_delay_accepts_any_later_event() {
    let mut d = Debouncer::new(0, 0);
    assert!(d.try_trigger(1));
    assert!(!d.try_trigger(1));
    assert!(d.try_trigger(2));
}

#[test]
fn earlier_time_is_rejected() {
    let mut d = Debouncer::new(10 * SEC, 0);
    assert!(!d.try_trigger(SEC));
}

#[test]
fn burst_triggers_once() {
    let mut d = Debouncer::new(0, 3);
    let start = 10 * SEC;
    let mut triggered = 0;
    for k in 0..50u64 {
        if d.try_trigger(start + k * (SEC / 20)) {
            triggered += 1;
        }
    }
    assert_eq!(triggered, 1);
}

#[test]
fn loop_skips_event_without_path() {
    let mut l = EventLoop::new(&config("node", 1, None), 0);
    assert_eq!(l.on_change(ChangeKind::Modify, &vec![], 5 * SEC), LoopAction::NoPath);
}

#[test]
fn loop_ignores_filtered_paths() {
    let mut l = EventLoop::new(&config("node", 1, Some(".*\\.git.*")), 0);
    let git = vec!["/repo/.git/HEAD".to_string(), "/repo/src/a.js".to_string()];
    assert_eq!(l.on_change(ChangeKind::Modify, &git, 5 * SEC), LoopAction::Ignored);
    let src = vec!["/repo/src/a.js".to_string()];
    assert_eq!(l.on_change(ChangeKind::Modify, &src, 5 * SEC), LoopAction::Restart);
}

#[test]
fn loop_skips_other_kinds() {
    let mut l = EventLoop::new(&config("node", 1, None), 0);
    let p = vec!["/repo/src/a.js".to_string()];
    assert_eq!(l.on_change(ChangeKind::Other, &p, 5 * SEC), LoopAction::Unrelated);
    assert_eq!(l.on_change(ChangeKind::Create, &p, 5 * SEC), LoopAction::Restart);
    assert_eq!(l.on_change(ChangeKind::Remove, &p, 5 * SEC + 1), LoopAction::Debounced);
}

#[test]
fn loop_burst_restarts_once() {
    let mut l = EventLoop::new(&config("node", 2, None), 0);
    let p = vec!["/repo/src/a.js".to_string()];
    let mut restarts = 0;
    for k in 0..30u64 {
        if l.on_change(ChangeKind::Modify, &p, 10 * SEC + k * (SEC / 20)) == LoopAction::Restart {
            restarts += 1;
        }
    }
    assert_eq!(restarts, 1);
    assert_eq!(l.on_change(ChangeKind::Modify, &p, 12 * SEC), LoopAction::Debounced);
    assert_eq!(l.on_change(ChangeKind::Modify, &p, 12 * SEC + 1), LoopAction::Restart);
}

#[test]
fn stop_twice_is_noop() {
    let mut s: ScriptProcess<u32> = ScriptProcess::new();
    assert_eq!(s.started(7), None);
    assert!(s.is_running());
    assert_eq!(s.stop(), Some(7));
    assert!(!s.is_running());
    assert_eq!(s.stop(), None);
    assert!(!s.is_running());
}

#[test]
fn restart_hands_back_running_child() {
    let mut s: ScriptProcess<u32> = ScriptProcess::new();
    let (old, launch) = s.restart(&config("go", 1, None));
    assert_eq!(old, None);
    let launch = launch.unwrap();
    assert_eq!(launch.program, "go");
    assert_eq!(s.started(1), None);
    let (old, launch) = s.restart(&config("go", 1, None));
    assert_eq!(old, Some(1));
    assert!(launch.is_ok());
    assert!(!s.is_running());
    assert_eq!(s.started(2), None);
    assert_eq!(s.stop(), Some(2));
}

#[test]
fn started_without_stop_hands_back_previous() {
    let mut s: ScriptProcess<u32> = ScriptProcess::new();
    assert_eq!(s.started(1), None);
    assert_eq!(s.started(2), Some(1));
    assert_eq!(s.stop(), Some(2));
}

#[test]
fn unknown_type_restart_leaves_stopped() {
    let mut s: ScriptProcess<u32> = ScriptProcess::new();
    s.started(9);
    let (old, launch) = s.restart(&config("fortran", 1, None));
    assert_eq!(old, Some(9));
    assert_eq!(launch.err(), Some(RestartError::UnsupportedScriptType("fortran".to_string())));
    assert!(!s.is_running());
    assert_eq!(s.stop(), None);
}

#[test]
fn should_trigger_is_strict() {
    assert!(!should_trigger(3_000, 1_000, 2_000));
    assert!(should_trigger(3_001, 1_000, 2_000));
    assert!(!should_trigger(500, 1_000, 0));
    assert!(should_trigger(u64::MAX, 0, (u64::MAX - 1) as u128));
}
