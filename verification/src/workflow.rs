//! The install workflow: download, install, launch and uninstall of the
//! game client, as a state machine.
//!
//! The machine decides and the caller acts. A download hands out one
//! notification at a time; the caller paces, pushes it to the subscriber
//! and reports back what became of it.

use crate::error::LauncherError;
use crate::launch::{launch_command, launch_command_line};
use crate::settings::{GameSettings, GameSettingsView};
use vstd::prelude::*;
use vstd::string::*;

verus! {

/// Pause before each progress notification, in milliseconds.
pub const PROGRESS_PACING_MILLIS: u64 = 50;

/// Time that unpacking and checking the client takes, in milliseconds.
pub const INSTALL_DELAY_MILLIS: u64 = 1000;

/// Time that removing the client takes, in milliseconds.
pub const UNINSTALL_DELAY_MILLIS: u64 = 500;

/// The percentage at which a download is through.
pub const FULL_PERCENT: u8 = 100;

/// One notification of a download: how far it is, and whether this is the
/// signal that it is complete.
#[derive(Clone, Copy, Debug, PartialEq, Eq, Structural)]
pub struct InstallProgress {
    pub percent: u8,
    pub complete: bool,
}

impl InstallProgress {
    /// The name of the event that carries this notification to the
    /// subscriber.
    pub open spec fn event_label(self) -> Seq<char> {
        if self.complete {
            "download_complete"@
        } else {
            "download_progress"@
        }
    }

    /// Names the event under which this notification goes out: a
    /// percentage as progress, the completion signal under a name of its
    /// own.
    pub fn event_name(&self) -> (name: String)
        ensures
            name@ == self.event_label(),
    {
        if self.complete {
            String::from_str("download_complete")
        } else {
            String::from_str("download_progress")
        }
    }

    /// A percentage is at most 100, and only a full download is complete.
    pub open spec fn well_formed(self) -> bool {
        self.percent <= FULL_PERCENT && (self.complete ==> self.percent == FULL_PERCENT)
    }

    /// The notification with which every download starts.
    pub open spec fn first() -> InstallProgress {
        InstallProgress { percent: 0, complete: false }
    }

    /// The notification that follows this one: the next percentage, and
    /// after the last percentage the completion signal.
    pub open spec fn successor(self) -> InstallProgress
        recommends
            !self.complete,
    {
        if self.percent < FULL_PERCENT {
            InstallProgress { percent: (self.percent + 1) as u8, complete: false }
        } else {
            InstallProgress { percent: FULL_PERCENT, complete: true }
        }
    }
}

/// Where the workflow stands.
#[derive(Clone, Copy, Debug, PartialEq, Eq, Structural)]
pub enum WorkflowState {
    /// No client is present and nothing is under way.
    Idle,
    /// A download is under way; `pending` is the notification that was
    /// handed out last and has not been answered yet.
    Downloading { pending: InstallProgress },
    /// The download is complete and waits to be installed.
    Downloaded,
    /// The client is installed and not running.
    Installed,
    /// The client is installed and the game runs.
    Running,
}

/// What the caller reports back while a download is under way.
#[derive(Clone, Copy, Debug, PartialEq, Eq, Structural)]
pub enum DownloadEvent {
    /// The pending notification reached the channel.
    Delivered,
    /// The channel refused the pending notification.
    DeliveryFailed,
    /// The download was called off.
    Cancelled,
}

/// What the caller is to do next for a download.
#[derive(Clone, Copy, Debug, PartialEq, Eq, Structural)]
pub enum DownloadAction {
    /// Pause for the pacing delay if this is a percentage, push the
    /// notification, and report what became of it.
    Emit(InstallProgress),
    /// The download is through: resolve with success.
    Finish,
    /// The download has failed: resolve with this error.
    Fail(LauncherError),
    /// Nothing is left to do, and nothing is to be signalled.
    Stop,
}

impl WorkflowState {
    /// The notification of a download under way is a well-formed one.
    pub open spec fn well_formed(self) -> bool {
        self matches WorkflowState::Downloading { pending } ==> pending.well_formed()
    }

    /// What a request to start a download leads to. A download starts
    /// unless one is under way or the game runs.
    pub open spec fn begin_download(self) -> (WorkflowState, Result<InstallProgress, LauncherError>) {
        match self {
            WorkflowState::Downloading { .. } => (self, Err(LauncherError::AlreadyInProgress)),
            WorkflowState::Running => (self, Err(LauncherError::InUse)),
            _ => (
                WorkflowState::Downloading { pending: InstallProgress::first() },
                Ok(InstallProgress::first()),
            ),
        }
    }

    /// What a report from the caller leads to. Outside a download a report
    /// changes nothing.
    pub open spec fn advance(self, event: DownloadEvent) -> (WorkflowState, DownloadAction) {
        match self {
            WorkflowState::Downloading { pending } => match event {
                DownloadEvent::Delivered => if pending.complete {
                    (WorkflowState::Downloaded, DownloadAction::Finish)
                } else {
                    (
                        WorkflowState::Downloading { pending: pending.successor() },
                        DownloadAction::Emit(pending.successor()),
                    )
                },
                DownloadEvent::DeliveryFailed => (
                    WorkflowState::Idle,
                    DownloadAction::Fail(LauncherError::EventDeliveryFailed),
                ),
                DownloadEvent::Cancelled => (WorkflowState::Idle, DownloadAction::Stop),
            },
            _ => (self, DownloadAction::Stop),
        }
    }

    /// What a request to install leads to, given the verdict of the
    /// integrity check. A client that fails the check is thrown away.
    pub open spec fn install(self, artifact_intact: bool) -> (
        WorkflowState,
        Result<(), LauncherError>,
    ) {
        match self {
            WorkflowState::Downloading { .. } => (self, Err(LauncherError::AlreadyInProgress)),
            WorkflowState::Running => (self, Err(LauncherError::InUse)),
            _ => if artifact_intact {
                (WorkflowState::Installed, Ok(()))
            } else {
                (WorkflowState::Idle, Err(LauncherError::CorruptArtifact))
            },
        }
    }

    /// What a request to launch the game under `settings` leads to. Only an
    /// installed client that is not running can be launched.
    pub open spec fn launch(self, settings: GameSettingsView) -> (
        WorkflowState,
        Result<Seq<char>, LauncherError>,
    ) {
        match self {
            WorkflowState::Installed => (
                WorkflowState::Running,
                Ok(launch_command_line(settings)),
            ),
            WorkflowState::Running => (self, Err(LauncherError::InUse)),
            _ => (self, Err(LauncherError::LaunchFailed)),
        }
    }

    /// What the end of the game process leads to. `started` tells whether
    /// the process had come up at all.
    pub open spec fn process_exited(self, started: bool) -> (
        WorkflowState,
        Result<(), LauncherError>,
    ) {
        (
            if self is Running {
                WorkflowState::Installed
            } else {
                self
            },
            if started {
                Ok(())
            } else {
                Err(LauncherError::LaunchFailed)
            },
        )
    }

    /// What a request to uninstall leads to.
    pub open spec fn uninstall(self) -> (WorkflowState, Result<(), LauncherError>) {
        match self {
            WorkflowState::Downloading { .. } => (self, Err(LauncherError::AlreadyInProgress)),
            WorkflowState::Running => (self, Err(LauncherError::InUse)),
            _ => (WorkflowState::Idle, Ok(())),
        }
    }
}

/// The notification number `index` of a download, counted from zero: the
/// percentages from 0 to 100 in turn, and after them the completion signal.
pub open spec fn notification(index: int) -> InstallProgress {
    if index <= FULL_PERCENT {
        InstallProgress { percent: index as u8, complete: false }
    } else {
        InstallProgress { percent: FULL_PERCENT, complete: true }
    }
}

/// `count` reports of a delivery in a row.
pub open spec fn deliveries(count: nat) -> Seq<DownloadEvent> {
    Seq::new(count, |i: int| DownloadEvent::Delivered)
}

/// The state that the reports of `events` lead to from `state`, taken in
/// order, and the actions that they were answered with.
pub open spec fn replay(state: WorkflowState, events: Seq<DownloadEvent>) -> (
    WorkflowState,
    Seq<DownloadAction>,
)
    decreases events.len(),
{
    if events.len() == 0 {
        (state, Seq::empty())
    } else {
        let (reached, actions) = replay(state, events.drop_last());
        let (next, action) = reached.advance(events.last());
        (next, actions.push(action))
    }
}

/// The workflow of one client. It starts idle.
pub struct InstallWorkflow {
    state: WorkflowState,
}

impl View for InstallWorkflow {
    type V = WorkflowState;

    /// The state in which the workflow stands.
    closed spec fn view(&self) -> WorkflowState {
        self.state
    }
}

impl InstallWorkflow {
    #[verifier::type_invariant]
    spec fn sound(self) -> bool {
        self.state.well_formed()
    }

    /// An idle workflow.
    pub fn new() -> (workflow: InstallWorkflow)
        ensures
            workflow@ == WorkflowState::Idle,
    {
        InstallWorkflow { state: WorkflowState::Idle }
    }

    /// The state in which the workflow stands.
    pub fn state(&self) -> (state: WorkflowState)
        ensures
            state == self@,
            state.well_formed(),
    {
        proof {
            use_type_invariant(self);
        }
        self.state
    }

    /// Starts a download and hands out its first notification, the
    /// percentage 0. It is refused with `AlreadyInProgress` while a
    /// download is under way and with `InUse` while the game runs; the
    /// state then stays as it is.
    pub fn begin_download(&mut self) -> (outcome: Result<InstallProgress, LauncherError>)
        ensures
            (final(self)@, outcome) == old(self)@.begin_download(),
    {
        match self.state {
            WorkflowState::Downloading { .. } => Err(LauncherError::AlreadyInProgress),
            WorkflowState::Running => Err(LauncherError::InUse),
            _ => {
                let first = InstallProgress { percent: 0, complete: false };
                self.state = WorkflowState::Downloading { pending: first };
                Ok(first)
            },
        }
    }

    /// Takes the caller's report on the pending notification and says what
    /// to do next.
    ///
    /// After a delivery comes the next percentage, after the percentage 100
    /// the completion signal, and after that the download is through. A
    /// refused notification fails the download, and a cancellation ends it
    /// without another signal; either way the workflow is idle again.
    pub fn advance(&mut self, event: DownloadEvent) -> (action: DownloadAction)
        ensures
            (final(self)@, action) == old(self)@.advance(event),
            action matches DownloadAction::Emit(progress) ==> progress.well_formed(),
    {
        proof {
            use_type_invariant(&*self);
        }
        match self.state {
            WorkflowState::Downloading { pending } => match event {
                DownloadEvent::Delivered => {
                    if pending.complete {
                        self.state = WorkflowState::Downloaded;
                        DownloadAction::Finish
                    } else {
                        let next = if pending.percent < FULL_PERCENT {
                            InstallProgress { percent: pending.percent + 1, complete: false }
                        } else {
                            InstallProgress { percent: FULL_PERCENT, complete: true }
                        };
                        self.state = WorkflowState::Downloading { pending: next };
                        DownloadAction::Emit(next)
                    }
                },
                DownloadEvent::DeliveryFailed => {
                    self.state = WorkflowState::Idle;
                    DownloadAction::Fail(LauncherError::EventDeliveryFailed)
                },
                DownloadEvent::Cancelled => {
                    self.state = WorkflowState::Idle;
                    DownloadAction::Stop
                },
            },
            _ => DownloadAction::Stop,
        }
    }

    /// Installs the client. `artifact_intact` is the verdict of the
    /// integrity check on what was downloaded.
    ///
    /// It is refused with `AlreadyInProgress` while a download is under way
    /// and with `InUse` while the game runs. Otherwise an intact client is
    /// installed, and a corrupt one is thrown away with `CorruptArtifact`,
    /// which leaves the workflow idle for another try.
    pub fn install(&mut self, artifact_intact: bool) -> (outcome: Result<(), LauncherError>)
        ensures
            (final(self)@, outcome) == old(self)@.install(artifact_intact),
    {
        match self.state {
            WorkflowState::Downloading { .. } => Err(LauncherError::AlreadyInProgress),
            WorkflowState::Running => Err(LauncherError::InUse),
            _ => {
                if artifact_intact {
                    self.state = WorkflowState::Installed;
                    Ok(())
                } else {
                    self.state = WorkflowState::Idle;
                    Err(LauncherError::CorruptArtifact)
                }
            },
        }
    }

    /// Launches the game under `settings` and hands out the command line to
    /// start it with. It is refused with `InUse` while the game runs
    /// already, and with `LaunchFailed` where no client is installed.
    pub fn launch(&mut self, settings: &GameSettings) -> (outcome: Result<String, LauncherError>)
        ensures
            final(self)@ == old(self)@.launch(settings@).0,
            match old(self)@.launch(settings@).1 {
                Ok(line) => outcome matches Ok(command) && command@ == line,
                Err(error) => outcome == Err::<String, LauncherError>(error),
            },
    {
        match self.state {
            WorkflowState::Installed => {
                self.state = WorkflowState::Running;
                Ok(launch_command(settings))
            },
            WorkflowState::Running => Err(LauncherError::InUse),
            _ => Err(LauncherError::LaunchFailed),
        }
    }

    /// Takes note that the game process has ended, which makes the client
    /// available again. `started` tells whether the process had come up at
    /// all; if not, the launch is reported as `LaunchFailed`.
    pub fn process_exited(&mut self, started: bool) -> (outcome: Result<(), LauncherError>)
        ensures
            (final(self)@, outcome) == old(self)@.process_exited(started),
    {
        match self.state {
            WorkflowState::Running => {
                self.state = WorkflowState::Installed;
            },
            _ => {},
        }
        if started {
            Ok(())
        } else {
            Err(LauncherError::LaunchFailed)
        }
    }

    /// Removes the client. It is refused with `AlreadyInProgress` while a
    /// download is under way and with `InUse` while the game runs.
    pub fn uninstall(&mut self) -> (outcome: Result<(), LauncherError>)
        ensures
            (final(self)@, outcome) == old(self)@.uninstall(),
    {
        match self.state {
            WorkflowState::Downloading { .. } => Err(LauncherError::AlreadyInProgress),
            WorkflowState::Running => Err(LauncherError::InUse),
            _ => {
                self.state = WorkflowState::Idle;
                Ok(())
            },
        }
    }
}

} // verus!
