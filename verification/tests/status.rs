use launcher_core::error::LauncherError;
use launcher_core::settings::GameSettings;
use launcher_core::state::ApplicationState;
use launcher_core::status::{
    ServerStatus, ServerStatusSnapshot, StatusProbe, SIMULATED_PLAYER_COUNT,
};
use launcher_core::workflow::WorkflowState;

fn looks_like_a_clock(text: &str) -> bool {
    let b = text.as_bytes();
    if b.len() != 8 || b[2] != b':' || b[5] != b':' {
        return false;
    }
    let two = |i: usize| -> Option<u32> {
        if b[i].is_ascii_digit() && b[i + 1].is_ascii_digit() {
            Some(u32::from(b[i] - b'0') * 10 + u32::from(b[i + 1] - b'0'))
        } else {
            None
        }
    };
    matches!((two(0), two(3), two(6)), (Some(h), Some(m), Some(s)) if h <= 23 && m <= 59 && s <= 60)
}

#[test]
fn status_words() {
    assert_eq!(ServerStatus::Online.to_text(), "online");
    assert_eq!(ServerStatus::Offline.to_text(), "offline");
    assert_eq!(ServerStatus::Degraded.to_text(), "degraded");
}

#[test]
fn healthy_snapshot_has_fixed_population_and_given_clock() {
    let snapshot = ServerStatusSnapshot::healthy(String::from("12:34:56"));
    assert_eq!(snapshot.online_player_count, 127);
    assert_eq!(SIMULATED_PLAYER_COUNT, 127);
    assert_eq!(snapshot.server_clock, "12:34:56");
    assert_eq!(snapshot.status, ServerStatus::Online);
}

#[test]
fn fresh_probe_holds_nothing() {
    assert_eq!(StatusProbe::new().latest(), None);
    assert_eq!(ApplicationState::new().latest_server_info(), None);
}

#[test]
fn refresh_reports_a_healthy_server_with_a_clock() {
    let mut probe = StatusProbe::new();
    let snapshot = probe.refresh().unwrap();
    assert_eq!(snapshot.online_player_count, 127);
    assert_eq!(snapshot.status, ServerStatus::Online);
    assert!(looks_like_a_clock(&snapshot.server_clock), "{}", snapshot.server_clock);
    assert_eq!(probe.latest(), Some(snapshot));
}

#[test]
fn refresh_overwrites_the_held_snapshot() {
    let mut probe = StatusProbe::new();
    let old = ServerStatusSnapshot {
        online_player_count: 3,
        server_clock: String::from("no clock"),
        status: ServerStatus::Degraded,
    };
    assert_eq!(probe.record(Some(old.clone())), Ok(old.clone()));
    assert_eq!(probe.latest(), Some(old.clone()));
    let new = probe.refresh().unwrap();
    assert_ne!(new, old);
    assert_eq!(probe.latest(), Some(new));
}

#[test]
fn unreachable_source_keeps_the_last_good_snapshot() {
    let mut probe = StatusProbe::new();
    assert_eq!(probe.record(None), Err(LauncherError::Unreachable));
    assert_eq!(probe.latest(), None);
    let good = probe.refresh().unwrap();
    assert_eq!(probe.record(None), Err(LauncherError::Unreachable));
    assert_eq!(probe.latest(), Some(good));
}

#[test]
fn record_replaces_with_the_newest() {
    let mut state = ApplicationState::new();
    let first = ServerStatusSnapshot {
        online_player_count: 1,
        server_clock: String::from("00:00:01"),
        status: ServerStatus::Offline,
    };
    let second = ServerStatusSnapshot {
        online_player_count: 2,
        server_clock: String::from("00:00:02"),
        status: ServerStatus::Degraded,
    };
    assert_eq!(state.record_server_info(Some(first.clone())), Ok(first));
    assert_eq!(state.record_server_info(Some(second.clone())), Ok(second.clone()));
    assert_eq!(state.latest_server_info(), Some(second.clone()));
    assert_eq!(state.record_server_info(None), Err(LauncherError::Unreachable));
    assert_eq!(state.latest_server_info(), Some(second));
}

#[test]
fn get_server_info_leaves_settings_and_workflow_alone() {
    let mut state = ApplicationState::new();
    let snapshot = state.get_server_info().unwrap();
    assert!(looks_like_a_clock(&snapshot.server_clock));
    assert_eq!(state.latest_server_info(), Some(snapshot));
    assert_eq!(state.load_settings(), GameSettings::default());
    assert_eq!(state.workflow_state(), WorkflowState::Idle);
}

#[test]
fn clone_of_snapshot_is_equal() {
    let snapshot = ServerStatusSnapshot::healthy(String::from("23:59:60"));
    assert_eq!(snapshot.clone(), snapshot);
}
