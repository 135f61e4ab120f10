//! The status snapshot in the shape of the wire contract.

use crate::daemon::{DaemonSong, DaemonSongView, DaemonState, DaemonStatus};
use crate::error::{outcome_view, MpdError, MpdResult};
use crate::song::{queue_entry, seconds_of, whole_seconds, QueueSong, QueueSongView};
use vstd::prelude::*;
use vstd::std_specs::convert::FromSpecImpl;

verus! {

/// How the daemon goes on after the current song: one mode for each
/// combination of its flags `single` and `repeat`.
#[derive(Clone, Copy, Debug, PartialEq, Eq, Structural)]
pub enum MpdSongShot {
    /// Neither flag: the queue plays through once.
    Default,
    /// `single` alone: playback stops after the current song.
    Single,
    /// Both flags: the current song repeats.
    SingleRepeat,
    /// `repeat` alone: the queue repeats.
    QueueRepeat,
}

/// The mode for a combination of the two flags.
pub open spec fn shot_mode(single: bool, repeat: bool) -> MpdSongShot {
    match (single, repeat) {
        (false, false) => MpdSongShot::Default,
        (true, false) => MpdSongShot::Single,
        (true, true) => MpdSongShot::SingleRepeat,
        (false, true) => MpdSongShot::QueueRepeat,
    }
}

impl MpdSongShot {
    /// The mode for a combination of the two flags.
    pub fn from_flags(single: bool, repeat: bool) -> (shot: MpdSongShot)
        ensures
            shot == shot_mode(single, repeat),
            !single && !repeat <==> shot == MpdSongShot::Default,
            single && !repeat <==> shot == MpdSongShot::Single,
            single && repeat <==> shot == MpdSongShot::SingleRepeat,
            !single && repeat <==> shot == MpdSongShot::QueueRepeat,
    {
        match (single, repeat) {
            (true, true) => MpdSongShot::SingleRepeat,
            (false, true) => MpdSongShot::QueueRepeat,
            (true, false) => MpdSongShot::Single,
            _ => MpdSongShot::Default,
        }
    }
}

impl FromSpecImpl<DaemonStatus> for MpdSongShot {
    open spec fn obeys_from_spec() -> bool {
        true
    }

    open spec fn from_spec(value: DaemonStatus) -> MpdSongShot {
        shot_mode(value.single, value.repeat)
    }
}

impl From<DaemonStatus> for MpdSongShot {
    fn from(value: DaemonStatus) -> (shot: MpdSongShot) {
        MpdSongShot::from_flags(value.single, value.repeat)
    }
}

/// The playback state on the wire.
#[derive(Clone, Copy, Debug, PartialEq, Eq, Structural)]
pub enum MpdState {
    Play,
    Pause,
    Stop,
}

/// The wire state for each state of the daemon.
pub open spec fn shaped_state(state: DaemonState) -> MpdState {
    match state {
        DaemonState::Stop => MpdState::Stop,
        DaemonState::Play => MpdState::Play,
        DaemonState::Pause => MpdState::Pause,
    }
}

impl FromSpecImpl<DaemonState> for MpdState {
    open spec fn obeys_from_spec() -> bool {
        true
    }

    open spec fn from_spec(value: DaemonState) -> MpdState {
        shaped_state(value)
    }
}

impl From<DaemonState> for MpdState {
    fn from(value: DaemonState) -> (state: MpdState) {
        match value {
            DaemonState::Stop => MpdState::Stop,
            DaemonState::Play => MpdState::Play,
            DaemonState::Pause => MpdState::Pause,
        }
    }
}

/// The volume on the wire: absent where the daemon reports a value below
/// zero, which stands for "unknown", and the daemon's value otherwise.
pub open spec fn shaped_volume(raw: i8) -> Option<i8> {
    if raw <= -1 {
        None
    } else {
        Some(raw)
    }
}

/// Applies the rule for the daemon's "unknown" volume.
pub fn shape_volume(raw: i8) -> (volume: Option<i8>)
    ensures
        volume == shaped_volume(raw),
        volume is None <==> raw <= -1,
        raw > -1 ==> volume == Some(raw),
{
    if raw <= -1 {
        None
    } else {
        Some(raw)
    }
}

/// The status snapshot that the front-end receives.
#[derive(Clone, Debug, PartialEq)]
pub struct MpdStatus {
    pub state: MpdState,
    /// The song of the current queue slot; absent where the daemon names
    /// no current slot.
    pub current_song: Option<QueueSong>,
    /// Time played of the current song, in whole seconds.
    pub current_elapsed: Option<u64>,
    /// Length of the current song, in whole seconds.
    pub current_duration: Option<u64>,
    pub volume: Option<i8>,
    pub shot: MpdSongShot,
    pub random: bool,
    pub consume: bool,
}

pub struct MpdStatusView {
    pub state: MpdState,
    pub current_song: Option<QueueSongView>,
    pub current_elapsed: Option<u64>,
    pub current_duration: Option<u64>,
    pub volume: Option<i8>,
    pub shot: MpdSongShot,
    pub random: bool,
    pub consume: bool,
}

impl DeepView for MpdStatus {
    type V = MpdStatusView;

    open spec fn deep_view(&self) -> MpdStatusView {
        MpdStatusView {
            state: self.state,
            current_song: self.current_song.deep_view(),
            current_elapsed: self.current_elapsed,
            current_duration: self.current_duration,
            volume: self.volume,
            shot: self.shot,
            random: self.random,
            consume: self.consume,
        }
    }
}

impl View for MpdStatus {
    type V = MpdStatusView;

    open spec fn view(&self) -> MpdStatusView {
        self.deep_view()
    }
}

/// The snapshot for a status record whose current song, if it names one,
/// is `current`.
pub open spec fn snapshot(raw: DaemonStatus, current: Option<QueueSongView>) -> MpdStatusView {
    MpdStatusView {
        state: shaped_state(raw.state),
        current_song: current,
        current_elapsed: whole_seconds(raw.elapsed),
        current_duration: whole_seconds(raw.duration),
        volume: shaped_volume(raw.volume),
        shot: shot_mode(raw.single, raw.repeat),
        random: raw.random,
        consume: raw.consume,
    }
}

/// The shaped status for a status record and the answer to the lookup of
/// its current queue slot.
///
/// Where the record names no slot, there is no current song and `found` is
/// not read. Where it names one, `found` must hold the record that the slot
/// resolved to; a slot that did not resolve is a communication error.
pub open spec fn status_of(raw: DaemonStatus, found: Option<DaemonSongView>) -> Result<
    MpdStatusView,
    MpdError,
> {
    match raw.song {
        None => Ok(snapshot(raw, None)),
        Some(place) => match found {
            Some(song) => Ok(snapshot(raw, Some(queue_entry(song, place)))),
            None => Err(MpdError::MpdErrorCommunication),
        },
    }
}

impl MpdStatus {
    /// Shapes a status record. `found` is the answer to the lookup of the
    /// record's current queue slot, and is not read where the record names
    /// no slot.
    pub fn get(raw_status: DaemonStatus, found: Option<DaemonSong>) -> (shaped: MpdResult<
        MpdStatus,
    >)
        ensures
            outcome_view(shaped) == status_of(raw_status, found.deep_view()),
            shaped is Err <==> raw_status.song is Some && found is None,
    {
        let current_song = match raw_status.song {
            Some(place) => match QueueSong::from_place(found, place) {
                Ok(entry) => Some(entry),
                Err(kind) => {
                    return Err(kind);
                },
            },
            None => None,
        };
        Ok(
            MpdStatus {
                state: MpdState::from(raw_status.state),
                current_song,
                current_elapsed: seconds_of(raw_status.elapsed),
                current_duration: seconds_of(raw_status.duration),
                volume: shape_volume(raw_status.volume),
                random: raw_status.random,
                consume: raw_status.consume,
                shot: MpdSongShot::from(raw_status),
            },
        )
    }
}

} // verus!
