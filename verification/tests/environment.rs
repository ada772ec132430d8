use launcher_core::environment::{
    detect_runtime, probe_system, system_summary, RuntimeProbe, SystemInfo, KIB_PER_MIB,
};
use launcher_core::error::LauncherError;
use launcher_core::settings::GameSettings;
use launcher_core::state::ApplicationState;
use launcher_core::workflow::WorkflowState;

#[test]
fn absent_runtime_is_not_found() {
    assert_eq!(detect_runtime(&RuntimeProbe::NotStarted), Err(LauncherError::RuntimeNotFound));
}

#[test]
fn failed_exit_is_not_found_whatever_was_printed() {
    let probe = RuntimeProbe::Exited {
        success: false,
        diagnostics: b"java: command failed".to_vec(),
    };
    assert_eq!(detect_runtime(&probe), Err(LauncherError::RuntimeNotFound));
}

#[test]
fn version_text_is_returned_raw() {
    let raw = "openjdk version \"17.0.2\" 2022-01-18\nOpenJDK Runtime Environment\n";
    let probe = RuntimeProbe::Exited { success: true, diagnostics: raw.as_bytes().to_vec() };
    assert_eq!(detect_runtime(&probe), Ok(String::from(raw)));
}

#[test]
fn version_text_may_be_empty() {
    let probe = RuntimeProbe::Exited { success: true, diagnostics: Vec::new() };
    assert_eq!(detect_runtime(&probe), Ok(String::new()));
}

#[test]
fn version_text_outside_ascii_is_decoded() {
    let raw = "Java trouvé, version « 21 »";
    let probe = RuntimeProbe::Exited { success: true, diagnostics: raw.as_bytes().to_vec() };
    assert_eq!(detect_runtime(&probe), Ok(String::from(raw)));
}

#[test]
fn invalid_bytes_are_replaced_not_refused() {
    let probe = RuntimeProbe::Exited { success: true, diagnostics: vec![b'j', 0xff, b'v'] };
    assert_eq!(detect_runtime(&probe), Ok(String::from("j\u{fffd}v")));
}

#[test]
fn check_of_an_absent_runtime_changes_no_state() {
    let mut state = ApplicationState::new();
    let mut wanted = GameSettings::default();
    wanted.render_distance = 20;
    state.save_settings(wanted.clone()).unwrap();
    let snapshot = state.get_server_info().unwrap();
    state.install_client(true).unwrap();
    assert_eq!(
        state.check_java_installation(&RuntimeProbe::NotStarted),
        Err(LauncherError::RuntimeNotFound)
    );
    assert_eq!(state.load_settings(), wanted);
    assert_eq!(state.latest_server_info(), Some(snapshot));
    assert_eq!(state.workflow_state(), WorkflowState::Installed);
}

#[test]
fn summary_converts_kibibytes_to_mebibytes() {
    assert_eq!(KIB_PER_MIB, 1024);
    let info = system_summary(Some(16_777_216), Some(8), String::from("linux"));
    assert_eq!(
        info,
        SystemInfo { total_memory_mb: 16_384, cpu_cores: 8, os: String::from("linux") }
    );
}

#[test]
fn summary_rounds_memory_down() {
    assert_eq!(system_summary(Some(1023), Some(1), String::from("macos")).total_memory_mb, 0);
    assert_eq!(system_summary(Some(1024), Some(1), String::from("macos")).total_memory_mb, 1);
    assert_eq!(system_summary(Some(2047), Some(1), String::from("macos")).total_memory_mb, 1);
    assert_eq!(
        system_summary(Some(u64::MAX), Some(1), String::from("macos")).total_memory_mb,
        u64::MAX / 1024
    );
}

#[test]
fn summary_degrades_to_zero() {
    let info = system_summary(None, None, String::from("windows"));
    assert_eq!(
        info,
        SystemInfo { total_memory_mb: 0, cpu_cores: 0, os: String::from("windows") }
    );
    assert_eq!(system_summary(None, Some(4), String::new()).cpu_cores, 4);
    assert_eq!(system_summary(Some(4096), None, String::new()).total_memory_mb, 4);
}

#[test]
fn probe_of_this_machine_never_fails() {
    let info = probe_system(String::from("linux")).unwrap();
    assert_eq!(info.os, "linux");
    let again = ApplicationState::new().get_system_info(String::from("some os")).unwrap();
    assert_eq!(again.os, "some os");
}
