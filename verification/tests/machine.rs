use silentify::monitor::{replay, step, Command, Event, Monitor, MonitorState, Transition};
use silentify::snapshot::{PlaybackSnapshot, TrackInfo};
use silentify::timing::DEFAULT_AD_LENGTH_MS;
use silentify::volume::{VolumeAction, VolumeState};

fn song(duration_ms: u64, progress_ms: Option<u64>) -> PlaybackSnapshot {
    PlaybackSnapshot::Track {
        info: TrackInfo {
            kind: String::from("track"),
            name: String::from("Song"),
            artists: vec![String::from("Artist")],
            duration_ms,
        },
        progress_ms,
    }
}

fn poll_again() -> Transition {
    Transition { next: MonitorState::Polling, command: Command::Poll }
}

#[test]
fn sleeping_states_return_to_polling() {
    assert_eq!(
        step(MonitorState::TrackPlaying, &Event::SleepElapsed, DEFAULT_AD_LENGTH_MS),
        Some(poll_again())
    );
    assert_eq!(
        step(MonitorState::AdPlaying, &Event::SleepElapsed, DEFAULT_AD_LENGTH_MS),
        Some(poll_again())
    );
}

#[test]
fn stopped_has_no_transition() {
    assert_eq!(step(MonitorState::Stopped, &Event::SleepElapsed, DEFAULT_AD_LENGTH_MS), None);
    assert_eq!(
        step(MonitorState::Stopped, &Event::Polled(PlaybackSnapshot::Advertisement), 30000),
        None
    );
    assert_eq!(
        step(MonitorState::Stopped, &Event::Polled(song(1000, None)), 30000),
        None
    );
    assert_eq!(
        step(MonitorState::Stopped, &Event::Polled(PlaybackSnapshot::Nothing), 30000),
        None
    );
}

#[test]
fn events_out_of_turn_have_no_transition() {
    assert_eq!(step(MonitorState::Polling, &Event::SleepElapsed, 30000), None);
    assert_eq!(
        step(MonitorState::TrackPlaying, &Event::Polled(PlaybackSnapshot::Nothing), 30000),
        None
    );
    assert_eq!(
        step(MonitorState::AdPlaying, &Event::Polled(PlaybackSnapshot::Advertisement), 30000),
        None
    );
}

#[test]
fn polling_takes_each_kind_of_snapshot() {
    assert_eq!(
        step(MonitorState::Polling, &Event::Polled(song(200000, Some(50000))), 30000),
        Some(Transition {
            next: MonitorState::TrackPlaying,
            command: Command::ActThenSleep { action: VolumeAction::Restore, millis: 150000 },
        })
    );
    assert_eq!(
        step(MonitorState::Polling, &Event::Polled(PlaybackSnapshot::Advertisement), 30000),
        Some(Transition {
            next: MonitorState::AdPlaying,
            command: Command::ActThenSleep { action: VolumeAction::Mute, millis: 30000 },
        })
    );
    assert_eq!(
        step(MonitorState::Polling, &Event::Polled(PlaybackSnapshot::Nothing), 30000),
        Some(Transition { next: MonitorState::Stopped, command: Command::Halt })
    );
}

#[test]
fn failed_query_stops_without_retry() {
    assert_eq!(
        step(MonitorState::Polling, &Event::QueryFailed, DEFAULT_AD_LENGTH_MS),
        Some(Transition { next: MonitorState::Stopped, command: Command::Fail })
    );
    assert_eq!(step(MonitorState::TrackPlaying, &Event::QueryFailed, 30000), None);
    assert_eq!(step(MonitorState::AdPlaying, &Event::QueryFailed, 30000), None);
    assert_eq!(step(MonitorState::Stopped, &Event::QueryFailed, 30000), None);
}

#[test]
fn monitor_stops_on_failed_query() {
    let mut monitor = Monitor::new();
    assert_eq!(monitor.handle(&Event::QueryFailed), Some(Command::Fail));
    assert_eq!(monitor.state(), MonitorState::Stopped);
    assert_eq!(monitor.handle(&Event::Polled(PlaybackSnapshot::Advertisement)), None);
    assert_eq!(monitor.handle(&Event::SleepElapsed), None);
    assert_eq!(monitor.state(), MonitorState::Stopped);
}

#[test]
fn new_monitor_polls_with_default_length() {
    let monitor = Monitor::new();
    assert_eq!(monitor.state(), MonitorState::Polling);
    assert_eq!(monitor.ad_length_ms(), 30000);
}

#[test]
fn monitor_keeps_configured_length() {
    let mut monitor = Monitor::with_ad_length(12000);
    assert_eq!(monitor.state(), MonitorState::Polling);
    assert_eq!(monitor.ad_length_ms(), 12000);
    let command = monitor.handle(&Event::Polled(PlaybackSnapshot::Advertisement));
    assert_eq!(
        command,
        Some(Command::ActThenSleep { action: VolumeAction::Mute, millis: 12000 })
    );
    assert_eq!(monitor.state(), MonitorState::AdPlaying);
    assert_eq!(monitor.ad_length_ms(), 12000);
}

#[test]
fn monitor_walks_through_a_session() {
    let mut monitor = Monitor::new();

    let command = monitor.handle(&Event::Polled(song(200000, Some(50000))));
    assert_eq!(
        command,
        Some(Command::ActThenSleep { action: VolumeAction::Restore, millis: 150000 })
    );
    assert_eq!(monitor.state(), MonitorState::TrackPlaying);

    assert_eq!(monitor.handle(&Event::SleepElapsed), Some(Command::Poll));
    assert_eq!(monitor.state(), MonitorState::Polling);

    let command = monitor.handle(&Event::Polled(PlaybackSnapshot::Advertisement));
    assert_eq!(
        command,
        Some(Command::ActThenSleep { action: VolumeAction::Mute, millis: 30000 })
    );
    assert_eq!(monitor.state(), MonitorState::AdPlaying);

    assert_eq!(monitor.handle(&Event::SleepElapsed), Some(Command::Poll));
    assert_eq!(monitor.state(), MonitorState::Polling);

    assert_eq!(monitor.handle(&Event::Polled(PlaybackSnapshot::Nothing)), Some(Command::Halt));
    assert_eq!(monitor.state(), MonitorState::Stopped);

    assert_eq!(monitor.handle(&Event::SleepElapsed), None);
    assert_eq!(monitor.handle(&Event::Polled(song(1000, None))), None);
    assert_eq!(monitor.state(), MonitorState::Stopped);
}

#[test]
fn monitor_ignores_event_out_of_turn() {
    let mut monitor = Monitor::new();
    assert_eq!(monitor.handle(&Event::SleepElapsed), None);
    assert_eq!(monitor.state(), MonitorState::Polling);
    monitor.handle(&Event::Polled(song(5000, None)));
    assert_eq!(monitor.handle(&Event::Polled(PlaybackSnapshot::Nothing)), None);
    assert_eq!(monitor.state(), MonitorState::TrackPlaying);
}

#[test]
fn replay_stops_at_first_nothing() {
    let snapshots = vec![
        song(100000, Some(150000)),
        PlaybackSnapshot::Advertisement,
        PlaybackSnapshot::Nothing,
        PlaybackSnapshot::Advertisement,
        song(1000, None),
    ];
    let trace = replay(&snapshots, DEFAULT_AD_LENGTH_MS);
    assert_eq!(
        trace,
        vec![
            Transition {
                next: MonitorState::TrackPlaying,
                command: Command::ActThenSleep { action: VolumeAction::Restore, millis: 0 },
            },
            Transition {
                next: MonitorState::AdPlaying,
                command: Command::ActThenSleep { action: VolumeAction::Mute, millis: 30000 },
            },
            Transition { next: MonitorState::Stopped, command: Command::Halt },
        ]
    );
}

#[test]
fn replay_of_nothing_issues_one_poll() {
    let snapshots = vec![PlaybackSnapshot::Nothing, PlaybackSnapshot::Nothing];
    let trace = replay(&snapshots, DEFAULT_AD_LENGTH_MS);
    assert_eq!(trace, vec![Transition { next: MonitorState::Stopped, command: Command::Halt }]);
}

#[test]
fn replay_without_nothing_takes_every_snapshot() {
    let snapshots = vec![song(180000, None), PlaybackSnapshot::Advertisement];
    let trace = replay(&snapshots, 20000);
    assert_eq!(
        trace,
        vec![
            Transition {
                next: MonitorState::TrackPlaying,
                command: Command::ActThenSleep { action: VolumeAction::Restore, millis: 180000 },
            },
            Transition {
                next: MonitorState::AdPlaying,
                command: Command::ActThenSleep { action: VolumeAction::Mute, millis: 20000 },
            },
        ]
    );
}

#[test]
fn replay_of_empty_list_is_empty() {
    let snapshots: Vec<PlaybackSnapshot> = Vec::new();
    assert!(replay(&snapshots, DEFAULT_AD_LENGTH_MS).is_empty());
}

#[test]
fn volume_actions_aim_at_their_state() {
    assert_eq!(VolumeAction::Mute.target(), VolumeState::Muted);
    assert_eq!(VolumeAction::Restore.target(), VolumeState::Audible);
    assert_eq!(VolumeState::Audible.apply(VolumeAction::Mute), VolumeState::Muted);
    assert_eq!(VolumeState::Muted.apply(VolumeAction::Restore), VolumeState::Audible);
}

#[test]
fn volume_actions_are_idempotent() {
    assert_eq!(VolumeState::Muted.apply(VolumeAction::Mute), VolumeState::Muted);
    assert_eq!(VolumeState::Audible.apply(VolumeAction::Restore), VolumeState::Audible);
    for state in [VolumeState::Muted, VolumeState::Audible] {
        for action in [VolumeAction::Mute, VolumeAction::Restore] {
            let once = state.apply(action);
            assert_eq!(once.apply(action), once);
        }
    }
}
