//! The application state: latest server snapshot, settings and install
//! workflow under one owner, with one operation for each command of the
//! user interface.

use crate::environment::{
    detect_runtime, probe_system, summary_of, utf8_lossy, RuntimeProbe, SystemInfo,
};
use crate::error::LauncherError;
use crate::settings::{default_settings, saved, GameSettings, SettingsStore};
use crate::status::{healthy_snapshot, is_clock_text, ServerStatusSnapshot, StatusProbe};
use crate::workflow::{
    DownloadAction, DownloadEvent, InstallProgress, InstallWorkflow, WorkflowState,
};
use vstd::prelude::*;

verus! {

/// Everything that outlives a command. It is made once, when the
/// application starts, and handed to every command from then on.
pub struct ApplicationState {
    status: StatusProbe,
    settings: SettingsStore,
    workflow: InstallWorkflow,
}

/// What the application state holds.
pub struct ApplicationStateView {
    pub snapshot: Option<ServerStatusSnapshot>,
    pub settings: GameSettings,
    pub workflow: WorkflowState,
}

impl View for ApplicationState {
    type V = ApplicationStateView;

    closed spec fn view(&self) -> ApplicationStateView {
        ApplicationStateView {
            snapshot: self.status@,
            settings: self.settings@,
            workflow: self.workflow@,
        }
    }
}

impl ApplicationState {
    /// The state at the start: no snapshot, the default settings, an idle
    /// workflow.
    pub fn new() -> (state: ApplicationState)
        ensures
            state@.snapshot is None,
            state@.settings@ == default_settings(),
            state@.workflow == WorkflowState::Idle,
    {
        ApplicationState {
            status: StatusProbe::new(),
            settings: SettingsStore::new(),
            workflow: InstallWorkflow::new(),
        }
    }

    /// Returns a copy of the latest snapshot.
    pub fn latest_server_info(&self) -> (snapshot: Option<ServerStatusSnapshot>)
        ensures
            snapshot == self@.snapshot,
    {
        self.status.latest()
    }

    /// The state in which the install workflow stands.
    pub fn workflow_state(&self) -> (state: WorkflowState)
        ensures
            state == self@.workflow,
            state.well_formed(),
    {
        self.workflow.state()
    }

    /// Queries the status source and keeps its answer as the latest
    /// snapshot. Settings and workflow stay as they are.
    pub fn get_server_info(&mut self) -> (outcome: Result<ServerStatusSnapshot, LauncherError>)
        ensures
            outcome matches Ok(snapshot) && snapshot@ == healthy_snapshot(snapshot.server_clock@)
                && is_clock_text(snapshot.server_clock@) && final(self)@ == (ApplicationStateView {
                snapshot: Some(snapshot),
                ..old(self)@
            }),
    {
        self.status.refresh()
    }

    /// Takes in what a query of the status source gave. A snapshot becomes
    /// the latest one; without one the latest is kept and `Unreachable` is
    /// reported. Settings and workflow stay as they are.
    pub fn record_server_info(&mut self, observed: Option<ServerStatusSnapshot>) -> (outcome:
        Result<ServerStatusSnapshot, LauncherError>)
        ensures
            observed matches Some(snapshot) ==> outcome == Ok::<
                ServerStatusSnapshot,
                LauncherError,
            >(snapshot) && final(self)@ == (ApplicationStateView {
                snapshot: Some(snapshot),
                ..old(self)@
            }),
            observed is None ==> outcome == Err::<ServerStatusSnapshot, LauncherError>(
                LauncherError::Unreachable,
            ) && final(self)@ == old(self)@,
    {
        self.status.record(observed)
    }

    /// Replaces the settings by `settings`, whatever they hold. Snapshot
    /// and workflow stay as they are.
    pub fn save_settings(&mut self, settings: GameSettings) -> (outcome: Result<(), LauncherError>)
        ensures
            outcome is Ok,
            final(self)@ == (ApplicationStateView {
                settings: saved(old(self)@.settings, settings),
                ..old(self)@
            }),
    {
        self.settings.save(settings)
    }

    /// Returns a copy of the current settings.
    pub fn load_settings(&self) -> (settings: GameSettings)
        ensures
            settings == self@.settings,
    {
        self.settings.load()
    }

    /// Starts a download, as `InstallWorkflow::begin_download` does.
    /// Snapshot and settings stay as they are.
    pub fn begin_download(&mut self) -> (outcome: Result<InstallProgress, LauncherError>)
        ensures
            outcome == old(self)@.workflow.begin_download().1,
            final(self)@ == (ApplicationStateView {
                workflow: old(self)@.workflow.begin_download().0,
                ..old(self)@
            }),
    {
        self.workflow.begin_download()
    }

    /// Moves the download on by one report, as `InstallWorkflow::advance`
    /// does. Whatever the report, a cancellation among them, snapshot and
    /// settings stay as they are.
    pub fn advance_download(&mut self, event: DownloadEvent) -> (action: DownloadAction)
        ensures
            action == old(self)@.workflow.advance(event).1,
            action matches DownloadAction::Emit(progress) ==> progress.well_formed(),
            final(self)@ == (ApplicationStateView {
                workflow: old(self)@.workflow.advance(event).0,
                ..old(self)@
            }),
    {
        self.workflow.advance(event)
    }

    /// Installs the client, as `InstallWorkflow::install` does. Snapshot
    /// and settings stay as they are.
    pub fn install_client(&mut self, artifact_intact: bool) -> (outcome: Result<(), LauncherError>)
        ensures
            outcome == old(self)@.workflow.install(artifact_intact).1,
            final(self)@ == (ApplicationStateView {
                workflow: old(self)@.workflow.install(artifact_intact).0,
                ..old(self)@
            }),
    {
        self.workflow.install(artifact_intact)
    }

    /// Launches the game under `settings`, as `InstallWorkflow::launch`
    /// does. The settings are those of the request, not those of the store.
    /// Snapshot and stored settings stay as they are.
    pub fn launch_game(&mut self, settings: &GameSettings) -> (outcome: Result<
        String,
        LauncherError,
    >)
        ensures
            match old(self)@.workflow.launch(settings@).1 {
                Ok(line) => outcome matches Ok(command) && command@ == line,
                Err(error) => outcome == Err::<String, LauncherError>(error),
            },
            final(self)@ == (ApplicationStateView {
                workflow: old(self)@.workflow.launch(settings@).0,
                ..old(self)@
            }),
    {
        self.workflow.launch(settings)
    }

    /// Takes note that the game process has ended, as
    /// `InstallWorkflow::process_exited` does. Snapshot and settings stay
    /// as they are.
    pub fn game_exited(&mut self, started: bool) -> (outcome: Result<(), LauncherError>)
        ensures
            outcome == old(self)@.workflow.process_exited(started).1,
            final(self)@ == (ApplicationStateView {
                workflow: old(self)@.workflow.process_exited(started).0,
                ..old(self)@
            }),
    {
        self.workflow.process_exited(started)
    }

    /// Removes the client, as `InstallWorkflow::uninstall` does. Snapshot
    /// and settings stay as they are.
    pub fn uninstall_client(&mut self) -> (outcome: Result<(), LauncherError>)
        ensures
            outcome == old(self)@.workflow.uninstall().1,
            final(self)@ == (ApplicationStateView {
                workflow: old(self)@.workflow.uninstall().0,
                ..old(self)@
            }),
    {
        self.workflow.uninstall()
    }

    /// Judges a run of the runtime's version check, as `detect_runtime`
    /// does. The state is not touched, whatever the verdict.
    pub fn check_java_installation(&self, probe: &RuntimeProbe) -> (outcome: Result<
        String,
        LauncherError,
    >)
        ensures
            probe.succeeded() ==> (outcome matches Ok(text) && text@ == utf8_lossy(
                probe.diagnostics(),
            )),
            !probe.succeeded() ==> outcome == Err::<String, LauncherError>(
                LauncherError::RuntimeNotFound,
            ),
    {
        detect_runtime(probe)
    }

    /// Reports on the machine, as `probe_system` does. The state is not
    /// touched.
    pub fn get_system_info(&self, os: String) -> (outcome: Result<SystemInfo, LauncherError>)
        ensures
            outcome matches Ok(info) && exists|total_memory_kb: Option<u64>, cpu_cores: Option<u32>|
                info@ == #[trigger] summary_of(total_memory_kb, cpu_cores, os@),
    {
        probe_system(os)
    }
}

} // verus!
