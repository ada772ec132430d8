//! Laws that hold of the settings store and of the install workflow,
//! whatever the inputs.

use crate::settings::{after_saves, saved, GameSettings};
use crate::workflow::{
    deliveries, notification, replay, DownloadAction, DownloadEvent, InstallProgress,
    WorkflowState, FULL_PERCENT,
};
use vstd::prelude::*;

verus! {

/// Round trip: what is loaded after a save is the record that was saved, in
/// every field, whatever the store held before.
pub proof fn lemma_save_then_load(current: GameSettings, new: GameSettings)
    ensures
        saved(current, new) == new,
        saved(current, new)@ == new@,
{
}

/// Round trip over a history: after any number of saves the store holds the
/// record of the last one.
pub proof fn lemma_last_save_wins(initial: GameSettings, saves: Seq<GameSettings>)
    requires
        saves.len() > 0,
    ensures
        after_saves(initial, saves) == saves.last(),
{
}

/// Atomicity: in whatever order saves are admitted to the store, it then
/// holds the initial record or the record of one of the saves, whole. No
/// record is ever made of the fields of two.
pub proof fn lemma_saves_never_mix(initial: GameSettings, saves: Seq<GameSettings>)
    ensures
        saves.len() == 0 ==> after_saves(initial, saves) == initial,
        saves.len() > 0 ==> exists|i: int|
            0 <= i < saves.len() && after_saves(initial, saves) == #[trigger] saves[i],
{
    if saves.len() > 0 {
        assert(after_saves(initial, saves) == saves[saves.len() - 1]);
    }
}

/// While every notification is delivered, a download that has had `count`
/// deliveries answered them with the notifications 1 to `count` in turn and
/// waits for the answer to the last of them.
pub proof fn lemma_download_in_step(count: nat)
    requires
        count <= FULL_PERCENT + 1,
    ensures
        replay(WorkflowState::Downloading { pending: notification(0) }, deliveries(count)) == (
            WorkflowState::Downloading { pending: notification(count as int) },
            Seq::new(count, |i: int| DownloadAction::Emit(notification(i + 1))),
        ),
    decreases count,
{
    let start = WorkflowState::Downloading { pending: notification(0) };
    let expected = Seq::new(count, |i: int| DownloadAction::Emit(notification(i + 1)));
    if count == 0 {
        assert(replay(start, deliveries(count)).1 =~= expected);
    } else {
        let before = (count - 1) as nat;
        lemma_download_in_step(before);
        assert(deliveries(count).drop_last() =~= deliveries(before));
        assert(notification(before as int).successor() == notification(count as int));
        assert(replay(start, deliveries(count)).1 =~= expected);
    }
}

/// A download that is left alone hands out the percentages 0, 1, 2, and so
/// on to 100, each once and in this order, then the completion signal, once,
/// and then is through.
///
/// The download may start wherever one is accepted. `begin_download` hands
/// out the percentage 0; the 102 deliveries that follow are answered with
/// the percentages 1 to 100, the completion signal and the end.
pub proof fn lemma_download_emits_every_percent_once(start: WorkflowState)
    requires
        !(start is Downloading),
        !(start is Running),
    ensures
        start.begin_download().1 == Ok::<InstallProgress, crate::error::LauncherError>(
            notification(0),
        ),
        ({
            let (ended, actions) = replay(
                start.begin_download().0,
                deliveries((FULL_PERCENT + 2) as nat),
            );
            &&& ended == WorkflowState::Downloaded
            &&& actions.len() == FULL_PERCENT + 2
            &&& forall|i: int|
                0 <= i < FULL_PERCENT ==> #[trigger] actions[i] == DownloadAction::Emit(
                    InstallProgress { percent: (i + 1) as u8, complete: false },
                )
            &&& actions[FULL_PERCENT as int] == DownloadAction::Emit(
                InstallProgress { percent: FULL_PERCENT, complete: true },
            )
            &&& actions[FULL_PERCENT + 1] == DownloadAction::Finish
        }),
{
    let begun = start.begin_download().0;
    let all = (FULL_PERCENT + 2) as nat;
    let most = (FULL_PERCENT + 1) as nat;
    lemma_download_in_step(most);
    assert(deliveries(all).drop_last() =~= deliveries(most));
    let (ended, actions) = replay(begun, deliveries(all));
    assert forall|i: int| 0 <= i < FULL_PERCENT implies #[trigger] actions[i]
        == DownloadAction::Emit(InstallProgress { percent: (i + 1) as u8, complete: false }) by {
        assert(notification(i + 1) == InstallProgress { percent: (i + 1) as u8, complete: false });
    }
}

/// A download that is called off after the percentage `percent` went out
/// leaves the workflow idle, and no completion signal was or will be handed
/// out: the reports were answered with the percentages up to `percent` and
/// with the order to stop.
pub proof fn lemma_cancelled_download_goes_idle(start: WorkflowState, percent: nat)
    requires
        !(start is Downloading),
        !(start is Running),
        percent <= FULL_PERCENT,
    ensures
        ({
            let (ended, actions) = replay(
                start.begin_download().0,
                deliveries(percent).push(DownloadEvent::Cancelled),
            );
            &&& ended == WorkflowState::Idle
            &&& actions.len() == percent + 1
            &&& forall|i: int|
                0 <= i < percent ==> #[trigger] actions[i] == DownloadAction::Emit(
                    InstallProgress { percent: (i + 1) as u8, complete: false },
                )
            &&& actions[percent as int] == DownloadAction::Stop
            &&& forall|i: int|
                0 <= i < actions.len() ==> #[trigger] actions[i] != DownloadAction::Finish
                    && !(actions[i] matches DownloadAction::Emit(progress) && progress.complete)
        }),
{
    let begun = start.begin_download().0;
    let events = deliveries(percent).push(DownloadEvent::Cancelled);
    lemma_download_in_step(percent);
    assert(events.drop_last() =~= deliveries(percent));
    let (ended, actions) = replay(begun, events);
    assert forall|i: int| 0 <= i < percent implies #[trigger] actions[i] == DownloadAction::Emit(
        InstallProgress { percent: (i + 1) as u8, complete: false },
    ) by {
        assert(notification(i + 1) == InstallProgress { percent: (i + 1) as u8, complete: false });
    }
}

} // verus!
