use launcher_core::error::LauncherError;

#[test]
fn runtime_not_found_is_surfaced_verbatim() {
    assert_eq!(LauncherError::RuntimeNotFound.describe(), "Java non trouvé sur le système");
}

#[test]
fn every_error_has_a_message_of_its_own() {
    let all = [
        LauncherError::RuntimeNotFound,
        LauncherError::EventDeliveryFailed,
        LauncherError::Unreachable,
        LauncherError::CorruptArtifact,
        LauncherError::LaunchFailed,
        LauncherError::InUse,
        LauncherError::AlreadyInProgress,
    ];
    for (i, a) in all.iter().enumerate() {
        assert!(!a.describe().is_empty());
        for b in all.iter().skip(i + 1) {
            assert_ne!(a.describe(), b.describe());
        }
    }
}

#[test]
fn messages_of_the_workflow_errors() {
    assert_eq!(
        LauncherError::EventDeliveryFailed.describe(),
        "Échec de l'envoi d'une notification de progression"
    );
    assert_eq!(LauncherError::Unreachable.describe(), "Serveur injoignable");
    assert_eq!(LauncherError::CorruptArtifact.describe(), "Archive du client corrompue");
    assert_eq!(LauncherError::LaunchFailed.describe(), "Échec du lancement du jeu");
    assert_eq!(LauncherError::InUse.describe(), "Le client est en cours d'exécution");
    assert_eq!(
        LauncherError::AlreadyInProgress.describe(),
        "Un téléchargement est déjà en cours"
    );
}
