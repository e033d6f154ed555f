//! What one poll of the playback service reports, as a three-way tagged value.

use vstd::prelude::*;

verus! {

/// Descriptive data of the piece of content that is playing.
#[derive(Clone, Debug)]
pub struct TrackInfo {
    /// Kind label of the content, such as "track".
    pub kind: String,
    /// Display name.
    pub name: String,
    /// Display names of the artists, in the order reported.
    pub artists: Vec<String>,
    /// Total duration in milliseconds.
    pub duration_ms: u64,
}

/// Mathematical model of a `TrackInfo`.
pub ghost struct TrackInfoView {
    pub kind: Seq<char>,
    pub name: Seq<char>,
    pub artists: Seq<Seq<char>>,
    pub duration_ms: nat,
}

impl View for TrackInfo {
    type V = TrackInfoView;

    open spec fn view(&self) -> TrackInfoView {
        TrackInfoView {
            kind: self.kind@,
            name: self.name@,
            artists: Seq::new(self.artists@.len(), |i: int| self.artists@[i]@),
            duration_ms: self.duration_ms as nat,
        }
    }
}

/// The response of the playback service before classification: present only
/// while the session is active, with a content item only where the content is
/// addressable.
#[derive(Clone, Debug)]
pub struct RawPlayback {
    /// The content item, absent while an advertisement airs.
    pub item: Option<TrackInfo>,
    /// Elapsed playback time in milliseconds, where the service reports it.
    pub progress_ms: Option<u64>,
}

/// The result of one poll.
#[derive(Clone, Debug)]
pub enum PlaybackSnapshot {
    /// Regular content is playing. A missing `progress_ms` means that
    /// playback has not started yet.
    Track { info: TrackInfo, progress_ms: Option<u64> },
    /// An advertisement is airing; the service reports no progress for it.
    Advertisement,
    /// Nothing is playing.
    Nothing,
}

/// Mathematical model of a `PlaybackSnapshot`.
pub ghost enum SnapshotView {
    Track { info: TrackInfoView, progress_ms: Option<nat> },
    Advertisement,
    Nothing,
}

/// Model of an optional millisecond count.
pub open spec fn millis_view(ms: Option<u64>) -> Option<nat> {
    match ms {
        Some(p) => Some(p as nat),
        None => None,
    }
}

impl View for PlaybackSnapshot {
    type V = SnapshotView;

    open spec fn view(&self) -> SnapshotView {
        match *self {
            PlaybackSnapshot::Track { info, progress_ms } => SnapshotView::Track {
                info: info@,
                progress_ms: millis_view(progress_ms),
            },
            PlaybackSnapshot::Advertisement => SnapshotView::Advertisement,
            PlaybackSnapshot::Nothing => SnapshotView::Nothing,
        }
    }
}

/// The snapshot that a raw response stands for: no response is `Nothing`, a
/// response without an item is an `Advertisement` whatever else it carries,
/// and a response with an item is a `Track` with the progress reported.
pub open spec fn spec_classify(raw: Option<RawPlayback>) -> SnapshotView {
    match raw {
        None => SnapshotView::Nothing,
        Some(playing) => match playing.item {
            None => SnapshotView::Advertisement,
            Some(info) => SnapshotView::Track {
                info: info@,
                progress_ms: millis_view(playing.progress_ms),
            },
        },
    }
}

/// Classifies a raw response into exactly one of the three snapshots.
pub fn classify(raw: Option<RawPlayback>) -> (snapshot: PlaybackSnapshot)
    ensures
        snapshot@ == spec_classify(raw),
{
    match raw {
        None => PlaybackSnapshot::Nothing,
        Some(playing) => match playing.item {
            None => PlaybackSnapshot::Advertisement,
            Some(info) => PlaybackSnapshot::Track { info, progress_ms: playing.progress_ms },
        },
    }
}

impl PlaybackSnapshot {
    /// Elapsed playback time of the model, a missing value counting as zero.
    pub open spec fn spec_elapsed(view: SnapshotView) -> nat {
        match view {
            SnapshotView::Track { progress_ms: Some(p), .. } => p,
            _ => 0,
        }
    }
}

} // verus!
