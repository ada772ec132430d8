//! The error kinds that the launcher's operations can report.

use vstd::prelude::*;
use vstd::string::*;

verus! {

/// Everything that can go wrong in one of the launcher's operations.
#[derive(Clone, Copy, Debug, PartialEq, Eq, Structural)]
pub enum LauncherError {
    /// The external runtime is missing, could not be started, or exited
    /// with a failure status.
    RuntimeNotFound,
    /// The channel that carries progress notifications is gone.
    EventDeliveryFailed,
    /// The status source did not answer in time.
    Unreachable,
    /// The downloaded client failed its integrity check.
    CorruptArtifact,
    /// The game process could not be started.
    LaunchFailed,
    /// The client is running and cannot be changed under it.
    InUse,
    /// A download is under way already.
    AlreadyInProgress,
}

impl LauncherError {
    /// The text under which this error reaches the user interface.
    pub open spec fn message(self) -> Seq<char> {
        match self {
            LauncherError::RuntimeNotFound => "Java non trouvé sur le système"@,
            LauncherError::EventDeliveryFailed => "Échec de l'envoi d'une notification de progression"@,
            LauncherError::Unreachable => "Serveur injoignable"@,
            LauncherError::CorruptArtifact => "Archive du client corrompue"@,
            LauncherError::LaunchFailed => "Échec du lancement du jeu"@,
            LauncherError::InUse => "Le client est en cours d'exécution"@,
            LauncherError::AlreadyInProgress => "Un téléchargement est déjà en cours"@,
        }
    }

    /// Flattens the error to the one string that crosses the command boundary.
    pub fn describe(&self) -> (text: String)
        ensures
            text@ == self.message(),
    {
        match self {
            LauncherError::RuntimeNotFound => String::from_str("Java non trouvé sur le système"),
            LauncherError::EventDeliveryFailed => String::from_str(
                "Échec de l'envoi d'une notification de progression",
            ),
            LauncherError::Unreachable => String::from_str("Serveur injoignable"),
            LauncherError::CorruptArtifact => String::from_str("Archive du client corrompue"),
            LauncherError::LaunchFailed => String::from_str("Échec du lancement du jeu"),
            LauncherError::InUse => String::from_str("Le client est en cours d'exécution"),
            LauncherError::AlreadyInProgress => String::from_str(
                "Un téléchargement est déjà en cours",
            ),
        }
    }
}

} // verus!
