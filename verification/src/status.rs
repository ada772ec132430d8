//! Snapshots of the game server's health, and the probe that keeps the
//! latest one.

use crate::decimal::digit_char;
use crate::error::LauncherError;
use vstd::prelude::*;
use vstd::string::*;

verus! {

/// The population that the simulated status source reports.
pub const SIMULATED_PLAYER_COUNT: u32 = 127;

/// Health of the game server.
#[derive(Clone, Copy, Debug, PartialEq, Eq, Structural)]
pub enum ServerStatus {
    Online,
    Offline,
    Degraded,
}

impl ServerStatus {
    /// The word by which the user interface knows this status.
    pub open spec fn label(self) -> Seq<char> {
        match self {
            ServerStatus::Online => "online"@,
            ServerStatus::Offline => "offline"@,
            ServerStatus::Degraded => "degraded"@,
        }
    }

    /// Writes the status as the user interface expects it.
    pub fn to_text(&self) -> (text: String)
        ensures
            text@ == self.label(),
    {
        match self {
            ServerStatus::Online => String::from_str("online"),
            ServerStatus::Offline => String::from_str("offline"),
            ServerStatus::Degraded => String::from_str("degraded"),
        }
    }
}

/// What the status source said at one moment. A snapshot is never changed;
/// a newer one takes its place.
#[derive(Debug, PartialEq, Eq)]
pub struct ServerStatusSnapshot {
    pub online_player_count: u32,
    pub server_clock: String,
    pub status: ServerStatus,
}

/// What a snapshot says, with the clock as a sequence of characters.
pub struct ServerStatusSnapshotView {
    pub online_player_count: u32,
    pub server_clock: Seq<char>,
    pub status: ServerStatus,
}

impl View for ServerStatusSnapshot {
    type V = ServerStatusSnapshotView;

    open spec fn view(&self) -> ServerStatusSnapshotView {
        ServerStatusSnapshotView {
            online_player_count: self.online_player_count,
            server_clock: self.server_clock@,
            status: self.status,
        }
    }
}

/// The time of day `hour:minute:second`, each part in two digits.
pub open spec fn clock_notation(hour: nat, minute: nat, second: nat) -> Seq<char> {
    seq![
        digit_char(hour / 10),
        digit_char(hour % 10),
        ':',
        digit_char(minute / 10),
        digit_char(minute % 10),
        ':',
        digit_char(second / 10),
        digit_char(second % 10),
    ]
}

/// Whether `text` is a time of day in the notation `HH:MM:SS`. The second
/// may be 60, which is how a leap second is written.
pub open spec fn is_clock_text(text: Seq<char>) -> bool {
    exists|hour: nat, minute: nat, second: nat|
        hour <= 23 && minute <= 59 && second <= 60 && text == #[trigger] clock_notation(
            hour,
            minute,
            second,
        )
}

/// The snapshot of a healthy server whose clock reads `clock`.
pub open spec fn healthy_snapshot(clock: Seq<char>) -> ServerStatusSnapshotView {
    ServerStatusSnapshotView {
        online_player_count: SIMULATED_PLAYER_COUNT,
        server_clock: clock,
        status: ServerStatus::Online,
    }
}

impl Clone for ServerStatusSnapshot {
    fn clone(&self) -> (copy: ServerStatusSnapshot)
        ensures
            copy == *self,
    {
        ServerStatusSnapshot {
            online_player_count: self.online_player_count,
            server_clock: self.server_clock.clone(),
            status: self.status,
        }
    }
}

impl ServerStatusSnapshot {
    /// The snapshot of a healthy server whose clock reads `clock`.
    pub fn healthy(clock: String) -> (snapshot: ServerStatusSnapshot)
        ensures
            snapshot@ == healthy_snapshot(clock@),
    {
        ServerStatusSnapshot {
            online_player_count: SIMULATED_PLAYER_COUNT,
            server_clock: clock,
            status: ServerStatus::Online,
        }
    }
}

/// Reads the system clock through `chrono::Utc::now` and writes the time of
/// day with `chrono::DateTime::format` under the pattern `%H:%M:%S`.
///
/// Taken on trust: the text is two digits each for the hour (00 to 23), the
/// minute (00 to 59) and the second (00 to 60), with a colon between them.
/// Which time it is depends on the clock, so nothing more is said. The call
/// panics if the system clock stands before the year 1970.
#[verifier::external_body]
fn utc_clock_text() -> (text: String)
    ensures
        is_clock_text(text@),
{
    chrono::Utc::now().format("%H:%M:%S").to_string()
}

/// Keeper of the latest snapshot, if any has been taken.
pub struct StatusProbe {
    latest: Option<ServerStatusSnapshot>,
}

impl View for StatusProbe {
    type V = Option<ServerStatusSnapshot>;

    /// The snapshot that the probe holds.
    closed spec fn view(&self) -> Option<ServerStatusSnapshot> {
        self.latest
    }
}

impl StatusProbe {
    /// A probe that has not seen the server yet.
    pub fn new() -> (probe: StatusProbe)
        ensures
            probe@ is None,
    {
        StatusProbe { latest: None }
    }

    /// Returns a copy of the latest snapshot.
    pub fn latest(&self) -> (snapshot: Option<ServerStatusSnapshot>)
        ensures
            snapshot == self@,
    {
        match &self.latest {
            Some(snapshot) => Some(snapshot.clone()),
            None => None,
        }
    }

    /// Takes in what a query of the status source gave: a snapshot, or
    /// nothing if the source did not answer in time.
    ///
    /// A snapshot replaces the one held and is handed back. Without one the
    /// probe keeps what it has and reports `Unreachable`.
    pub fn record(&mut self, observed: Option<ServerStatusSnapshot>) -> (outcome: Result<
        ServerStatusSnapshot,
        LauncherError,
    >)
        ensures
            observed matches Some(snapshot) ==> outcome == Ok::<
                ServerStatusSnapshot,
                LauncherError,
            >(snapshot) && final(self)@ == Some(snapshot),
            observed is None ==> outcome == Err::<ServerStatusSnapshot, LauncherError>(
                LauncherError::Unreachable,
            ) && final(self)@ == old(self)@,
    {
        match observed {
            Some(snapshot) => {
                let copy = snapshot.clone();
                self.latest = Some(snapshot);
                Ok(copy)
            },
            None => Err(LauncherError::Unreachable),
        }
    }

    /// Queries the simulated status source, which always answers: the
    /// server is online with a fixed population, and its clock is the
    /// current time of day in UTC. The new snapshot replaces the one held
    /// and is handed back.
    pub fn refresh(&mut self) -> (outcome: Result<ServerStatusSnapshot, LauncherError>)
        ensures
            outcome matches Ok(snapshot) && snapshot@ == healthy_snapshot(snapshot.server_clock@)
                && is_clock_text(snapshot.server_clock@) && final(self)@ == Some(snapshot),
    {
        let snapshot = ServerStatusSnapshot::healthy(utc_clock_text());
        self.record(Some(snapshot))
    }
}

} // verus!
