//! What holds of the monitor's rules on every input, stated and proved.

use vstd::prelude::*;
use crate::monitor::{
    polls_issued, spec_action, spec_decide, spec_sleep_ms, spec_state_on, spec_step, Command,
    EventView, MonitorState, Transition,
};
use crate::snapshot::{SnapshotView, TrackInfoView};
use crate::timing::DEFAULT_AD_LENGTH_MS;
use crate::volume::{VolumeAction, VolumeState};

verus! {

/// A track whose reported progress does not exceed its duration is followed
/// by a sleep of exactly the duration less the progress, which is never
/// negative, and by a restore of the volume.
pub proof fn law_track_sleeps_for_what_is_left(
    info: TrackInfoView,
    progress_ms: nat,
    ad_length_ms: u64,
)
    requires
        progress_ms <= info.duration_ms,
    ensures
        spec_sleep_ms(SnapshotView::Track { info, progress_ms: Some(progress_ms) }, ad_length_ms)
            == Some(info.duration_ms - progress_ms),
        info.duration_ms - progress_ms >= 0,
        spec_action(SnapshotView::Track { info, progress_ms: Some(progress_ms) }) == Some(
            VolumeAction::Restore,
        ),
{
}

/// A track without reported progress is followed by a sleep of its whole
/// duration: a missing progress counts as zero elapsed.
pub proof fn law_missing_progress_is_zero(info: TrackInfoView, ad_length_ms: u64)
    ensures
        spec_sleep_ms(SnapshotView::Track { info, progress_ms: None }, ad_length_ms) == Some(
            info.duration_ms as int,
        ),
        spec_sleep_ms(SnapshotView::Track { info, progress_ms: None }, ad_length_ms)
            == spec_sleep_ms(SnapshotView::Track { info, progress_ms: Some(0) }, ad_length_ms),
{
}

/// A track whose reported progress exceeds its duration is followed by no
/// sleep at all, and the monitor polls again at once: it enters the sleeping
/// state and the end of the empty sleep brings it back to polling.
pub proof fn law_skewed_progress_sleeps_zero(
    info: TrackInfoView,
    progress_ms: nat,
    ad_length_ms: u64,
)
    requires
        progress_ms > info.duration_ms,
    ensures
        spec_decide(SnapshotView::Track { info, progress_ms: Some(progress_ms) }, ad_length_ms)
            == (Transition {
            next: MonitorState::TrackPlaying,
            command: Command::ActThenSleep { action: VolumeAction::Restore, millis: 0 },
        }),
        spec_step(MonitorState::TrackPlaying, EventView::SleepElapsed, ad_length_ms) == Some(
            Transition { next: MonitorState::Polling, command: Command::Poll },
        ),
{
}

/// An advertisement is followed by a mute and a sleep of the configured
/// length, thirty seconds by default, whatever else was reported.
pub proof fn law_advertisement_sleeps_fixed(ad_length_ms: u64)
    ensures
        spec_decide(SnapshotView::Advertisement, ad_length_ms) == (Transition {
            next: MonitorState::AdPlaying,
            command: Command::ActThenSleep { action: VolumeAction::Mute, millis: ad_length_ms },
        }),
        spec_sleep_ms(SnapshotView::Advertisement, DEFAULT_AD_LENGTH_MS) == Some(30000int),
{
}

/// Where nothing is playing the monitor halts without a volume action or a
/// sleep, and once stopped it has no transition on any event, so that no
/// further query is issued.
pub proof fn law_nothing_stops_for_good(event: EventView, ad_length_ms: u64)
    ensures
        spec_action(SnapshotView::Nothing) is None,
        spec_sleep_ms(SnapshotView::Nothing, ad_length_ms) is None,
        spec_decide(SnapshotView::Nothing, ad_length_ms) == (Transition {
            next: MonitorState::Stopped,
            command: Command::Halt,
        }),
        spec_step(MonitorState::Stopped, event, ad_length_ms) is None,
{
}

/// A failed query is not recovered from: the monitor stops with the failure,
/// takes no volume action, does not sleep and does not try again, and once
/// stopped it has no transition on any event.
pub proof fn law_failed_query_is_fatal(event: EventView, ad_length_ms: u64)
    ensures
        spec_step(MonitorState::Polling, EventView::QueryFailed, ad_length_ms) == Some(
            Transition { next: MonitorState::Stopped, command: Command::Fail },
        ),
        spec_step(MonitorState::Stopped, event, ad_length_ms) is None,
{
}

/// In a run over successive snapshots nothing after the first `Nothing` is
/// asked for: a run that takes `polls` snapshots has no `Nothing` before its
/// last one, and the number of snapshots taken is determined by the list.
pub proof fn law_run_ends_at_first_nothing(snapshots: Seq<SnapshotView>, a: int, b: int)
    requires
        polls_issued(snapshots, a),
        polls_issued(snapshots, b),
    ensures
        a == b,
{
    if a < b {
        assert(snapshots[a - 1] is Nothing);
    } else if b < a {
        assert(snapshots[b - 1] is Nothing);
    }
}

/// Every state but `Stopped` has exactly one kind of event that it awaits,
/// and every transition carries at most one volume action: a query and a
/// volume action never come in one command.
pub proof fn law_one_thing_at_a_time(state: MonitorState, event: EventView, ad_length_ms: u64)
    ensures
        spec_step(state, event, ad_length_ms) matches Some(transition) ==> {
            &&& transition.command is Poll <==> transition.next is Polling
            &&& (transition.command is Halt || transition.command is Fail) <==> transition.next
                is Stopped
            &&& transition.command is ActThenSleep <==> (transition.next is TrackPlaying
                || transition.next is AdPlaying)
        },
        state is Polling ==> (spec_step(state, event, ad_length_ms) is Some <==> !(event
            is SleepElapsed)),
        (state is TrackPlaying || state is AdPlaying) ==> (spec_step(state, event, ad_length_ms)
            is Some <==> event is SleepElapsed),
{
}

/// The output follows the content: after the action that a snapshot calls
/// for, the output is muted where an advertisement airs and audible where a
/// track plays, whatever it was before, and where nothing plays it is left as
/// it was. The state entered tells which of the three it was.
pub proof fn law_output_follows_content(before: VolumeState, snapshot: SnapshotView)
    ensures
        snapshot is Advertisement ==> before.spec_apply_opt(spec_action(snapshot))
            == VolumeState::Muted,
        snapshot is Track ==> before.spec_apply_opt(spec_action(snapshot))
            == VolumeState::Audible,
        snapshot is Nothing ==> before.spec_apply_opt(spec_action(snapshot)) == before,
        snapshot is Advertisement <==> spec_state_on(snapshot) is AdPlaying,
        snapshot is Track <==> spec_state_on(snapshot) is TrackPlaying,
        snapshot is Nothing <==> spec_state_on(snapshot) is Stopped,
{
}

/// Both volume actions are idempotent: carried out on an output that is
/// already in the state they aim at, they change nothing, and carried out
/// twice they leave what one of them leaves.
pub proof fn law_volume_actions_idempotent(state: VolumeState, action: VolumeAction)
    ensures
        state == action.spec_target() ==> state.spec_apply(action) == state,
        state.spec_apply(action).spec_apply(action) == state.spec_apply(action),
{
}

} // verus!
