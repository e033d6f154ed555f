//! The monitor's state machine: from a state and an event to the next state
//! and the command that the driver carries out.

use vstd::prelude::*;
use crate::snapshot::{PlaybackSnapshot, SnapshotView};
use crate::timing::{remaining_ms, spec_remaining, DEFAULT_AD_LENGTH_MS};
use crate::volume::VolumeAction;

verus! {

/// Where the monitor stands between two events.
#[derive(Clone, Copy, Debug, PartialEq, Eq, Structural)]
pub enum MonitorState {
    /// A query for the current playback is due or under way.
    Polling,
    /// Regular content plays; the monitor sleeps until it should end.
    TrackPlaying,
    /// An advertisement airs; the monitor sleeps for the assumed length.
    AdPlaying,
    /// Playback has ended. No transition leaves this state.
    Stopped,
}

/// What the driver reports back to the monitor.
#[derive(Clone, Debug)]
pub enum Event {
    /// A query returned this snapshot.
    Polled(PlaybackSnapshot),
    /// A query failed: the service could not be reached, or refused.
    QueryFailed,
    /// The sleep that the last command asked for is over.
    SleepElapsed,
}

/// Mathematical model of an `Event`.
pub ghost enum EventView {
    Polled(SnapshotView),
    QueryFailed,
    SleepElapsed,
}

impl View for Event {
    type V = EventView;

    open spec fn view(&self) -> EventView {
        match *self {
            Event::Polled(snapshot) => EventView::Polled(snapshot@),
            Event::QueryFailed => EventView::QueryFailed,
            Event::SleepElapsed => EventView::SleepElapsed,
        }
    }
}

/// What the monitor asks of the driver.
#[derive(Clone, Copy, Debug, PartialEq, Eq, Structural)]
pub enum Command {
    /// Query the current playback and report the snapshot.
    Poll,
    /// Carry out the one volume action, then sleep for `millis` milliseconds
    /// and report that the sleep is over.
    ActThenSleep { action: VolumeAction, millis: u64 },
    /// Stop: no volume action, no sleep, no further query.
    Halt,
    /// Stop as `Halt` does, and let the failure of the query surface: it is
    /// not recovered from.
    Fail,
}

/// The outcome of one step of the state machine.
#[derive(Clone, Copy, Debug, PartialEq, Eq, Structural)]
pub struct Transition {
    pub next: MonitorState,
    pub command: Command,
}

/// Sleep that follows a snapshot: for a track what is left of it, a missing
/// progress counting as zero elapsed; for an advertisement the assumed
/// length; none where nothing is playing.
pub open spec fn spec_sleep_ms(snapshot: SnapshotView, ad_length_ms: u64) -> Option<int> {
    match snapshot {
        SnapshotView::Track { info, progress_ms } => Some(
            spec_remaining(
                info.duration_ms as int,
                PlaybackSnapshot::spec_elapsed(snapshot) as int,
            ),
        ),
        SnapshotView::Advertisement => Some(ad_length_ms as int),
        SnapshotView::Nothing => None,
    }
}

/// Volume action that follows a snapshot: restore for a track, mute for an
/// advertisement, none where nothing is playing.
pub open spec fn spec_action(snapshot: SnapshotView) -> Option<VolumeAction> {
    match snapshot {
        SnapshotView::Track { .. } => Some(VolumeAction::Restore),
        SnapshotView::Advertisement => Some(VolumeAction::Mute),
        SnapshotView::Nothing => None,
    }
}

/// State that the monitor enters on a snapshot.
pub open spec fn spec_state_on(snapshot: SnapshotView) -> MonitorState {
    match snapshot {
        SnapshotView::Track { .. } => MonitorState::TrackPlaying,
        SnapshotView::Advertisement => MonitorState::AdPlaying,
        SnapshotView::Nothing => MonitorState::Stopped,
    }
}

/// The transition that a polling monitor makes on a snapshot.
pub open spec fn spec_decide(snapshot: SnapshotView, ad_length_ms: u64) -> Transition {
    Transition {
        next: spec_state_on(snapshot),
        command: match spec_action(snapshot) {
            Some(action) => Command::ActThenSleep {
                action,
                millis: spec_sleep_ms(snapshot, ad_length_ms).unwrap() as u64,
            },
            None => Command::Halt,
        },
    }
}

/// Decides what follows a snapshot: the volume action, the sleep before the
/// next query, and the state entered.
pub fn decide(snapshot: &PlaybackSnapshot, ad_length_ms: u64) -> (transition: Transition)
    ensures
        transition == spec_decide(snapshot@, ad_length_ms),
        snapshot@ is Nothing <==> transition.command is Halt,
        snapshot@ is Nothing <==> transition.next is Stopped,
        snapshot@ is Advertisement ==> transition.command == (Command::ActThenSleep {
            action: VolumeAction::Mute,
            millis: ad_length_ms,
        }),
        snapshot@ matches SnapshotView::Track { info, progress_ms } ==> {
            &&& transition.command is ActThenSleep
            &&& transition.command->action == VolumeAction::Restore
            &&& transition.command->millis == spec_remaining(
                info.duration_ms as int,
                PlaybackSnapshot::spec_elapsed(snapshot@) as int,
            )
            &&& progress_ms is None ==> transition.command->millis == info.duration_ms
        },
{
    match snapshot {
        PlaybackSnapshot::Track { info, progress_ms } => {
            let elapsed: u64 = match progress_ms {
                Some(p) => *p,
                None => 0,
            };
            Transition {
                next: MonitorState::TrackPlaying,
                command: Command::ActThenSleep {
                    action: VolumeAction::Restore,
                    millis: remaining_ms(info.duration_ms, elapsed),
                },
            }
        },
        PlaybackSnapshot::Advertisement => Transition {
            next: MonitorState::AdPlaying,
            command: Command::ActThenSleep { action: VolumeAction::Mute, millis: ad_length_ms },
        },
        PlaybackSnapshot::Nothing => Transition {
            next: MonitorState::Stopped,
            command: Command::Halt,
        },
    }
}

/// The transition table. A polling monitor takes a snapshot, or the failure
/// of its query, which stops it without another try; a sleeping one takes the
/// end of its sleep and polls again. Every other pair of state and event has
/// no transition, a stopped monitor in particular.
pub open spec fn spec_step(state: MonitorState, event: EventView, ad_length_ms: u64) -> Option<
    Transition,
> {
    match (state, event) {
        (MonitorState::Polling, EventView::Polled(snapshot)) => Some(
            spec_decide(snapshot, ad_length_ms),
        ),
        (MonitorState::Polling, EventView::QueryFailed) => Some(
            Transition { next: MonitorState::Stopped, command: Command::Fail },
        ),
        (MonitorState::TrackPlaying, EventView::SleepElapsed) => Some(
            Transition { next: MonitorState::Polling, command: Command::Poll },
        ),
        (MonitorState::AdPlaying, EventView::SleepElapsed) => Some(
            Transition { next: MonitorState::Polling, command: Command::Poll },
        ),
        _ => None,
    }
}

/// Makes one step of the state machine, or none where the event is not one
/// that the state awaits.
pub fn step(state: MonitorState, event: &Event, ad_length_ms: u64) -> (outcome: Option<Transition>)
    ensures
        outcome == spec_step(state, event@, ad_length_ms),
        outcome is Some <==> (state is Polling && !(event@ is SleepElapsed)) || ((state
            is TrackPlaying || state is AdPlaying) && event@ is SleepElapsed),
{
    match state {
        MonitorState::Polling => match event {
            Event::Polled(snapshot) => Some(decide(snapshot, ad_length_ms)),
            Event::QueryFailed => Some(
                Transition { next: MonitorState::Stopped, command: Command::Fail },
            ),
            Event::SleepElapsed => None,
        },
        MonitorState::TrackPlaying | MonitorState::AdPlaying => match event {
            Event::Polled(_) | Event::QueryFailed => None,
            Event::SleepElapsed => Some(
                Transition { next: MonitorState::Polling, command: Command::Poll },
            ),
        },
        MonitorState::Stopped => None,
    }
}

/// The views of the snapshots in a list, in order.
pub open spec fn snapshot_views(snapshots: Seq<PlaybackSnapshot>) -> Seq<SnapshotView> {
    Seq::new(snapshots.len(), |i: int| snapshots[i]@)
}

/// Whether a monitor that is fed `snapshots` in order issues exactly `polls`
/// queries: it takes snapshots until the first that is `Nothing`, that one
/// included, or until the list is used up.
pub open spec fn polls_issued(snapshots: Seq<SnapshotView>, polls: int) -> bool {
    &&& 0 <= polls <= snapshots.len()
    &&& forall|i: int| 0 <= i < polls - 1 ==> !(#[trigger] snapshots[i] is Nothing)
    &&& polls < snapshots.len() ==> polls > 0 && snapshots[polls - 1] is Nothing
}

/// Runs the monitor over the results of successive queries and returns the
/// transition made on each one taken. The run ends with the first snapshot
/// that is `Nothing`: what follows it in the list is never asked for.
pub fn replay(snapshots: &Vec<PlaybackSnapshot>, ad_length_ms: u64) -> (trace: Vec<Transition>)
    ensures
        polls_issued(snapshot_views(snapshots@), trace@.len() as int),
        forall|i: int|
            0 <= i < trace@.len() ==> #[trigger] trace@[i] == spec_decide(
                snapshots@[i]@,
                ad_length_ms,
            ),
{
    let mut trace: Vec<Transition> = Vec::new();
    let mut state = MonitorState::Polling;
    let mut i: usize = 0;
    while i < snapshots.len() && state != MonitorState::Stopped
        invariant
            i <= snapshots@.len(),
            trace@.len() == i,
            forall|k: int|
                0 <= k < i ==> #[trigger] trace@[k] == spec_decide(snapshots@[k]@, ad_length_ms),
            forall|k: int| 0 <= k < i - 1 ==> !(#[trigger] snapshots@[k]@ is Nothing),
            state is Stopped <==> i > 0 && snapshots@[i - 1]@ is Nothing,
        decreases snapshots@.len() - i,
    {
        let transition = decide(&snapshots[i], ad_length_ms);
        state = transition.next;
        trace.push(transition);
        i += 1;
    }
    trace
}

/// The monitor: the state it is in and the length it assumes for an
/// advertisement.
pub struct Monitor {
    state: MonitorState,
    ad_length_ms: u64,
}

impl Monitor {
    /// The state the monitor is in.
    pub closed spec fn spec_state(&self) -> MonitorState {
        self.state
    }

    /// The length assumed for an advertisement, in milliseconds.
    pub closed spec fn spec_ad_length_ms(&self) -> u64 {
        self.ad_length_ms
    }

    /// A monitor about to poll, with the default advertisement length.
    pub fn new() -> (monitor: Monitor)
        ensures
            monitor.spec_state() == MonitorState::Polling,
            monitor.spec_ad_length_ms() == DEFAULT_AD_LENGTH_MS,
    {
        Monitor { state: MonitorState::Polling, ad_length_ms: DEFAULT_AD_LENGTH_MS }
    }

    /// A monitor about to poll, with the given advertisement length.
    pub fn with_ad_length(ad_length_ms: u64) -> (monitor: Monitor)
        ensures
            monitor.spec_state() == MonitorState::Polling,
            monitor.spec_ad_length_ms() == ad_length_ms,
    {
        Monitor { state: MonitorState::Polling, ad_length_ms }
    }

    /// Returns the state the monitor is in.
    pub fn state(&self) -> (state: MonitorState)
        ensures
            state == self.spec_state(),
    {
        self.state
    }

    /// Returns the length assumed for an advertisement, in milliseconds.
    pub fn ad_length_ms(&self) -> (millis: u64)
        ensures
            millis == self.spec_ad_length_ms(),
    {
        self.ad_length_ms
    }

    /// Takes an event and returns the command for the driver. An event that
    /// the state does not await gives no command and changes nothing.
    pub fn handle(&mut self, event: &Event) -> (command: Option<Command>)
        ensures
            final(self).spec_ad_length_ms() == old(self).spec_ad_length_ms(),
            match spec_step(old(self).spec_state(), event@, old(self).spec_ad_length_ms()) {
                Some(transition) => {
                    &&& command == Some(transition.command)
                    &&& final(self).spec_state() == transition.next
                },
                None => {
                    &&& command is None
                    &&& final(self).spec_state() == old(self).spec_state()
                },
            },
    {
        match step(self.state, event, self.ad_length_ms) {
            Some(transition) => {
                self.state = transition.next;
                Some(transition.command)
            },
            None => None,
        }
    }
}

} // verus!
