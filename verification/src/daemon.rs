//! The daemon's own records, as plain values.
//!
//! These types hold what the protocol client hands over after one command:
//! nothing here is shaped yet. Each has a view in which text is a sequence
//! of characters, so that contracts can speak of equal text.

use vstd::prelude::*;

verus! {

/// How an exchange with the daemon failed, as the protocol client reports it.
#[derive(Clone, Copy, Debug, PartialEq, Eq, Structural)]
pub enum DaemonFault {
    /// The transport failed: the daemon could not be reached, or the
    /// connection broke during the exchange.
    Io,
    /// The daemon answered, but a field of the answer could not be parsed.
    Parse,
    /// The daemon answered with data that the protocol does not allow here.
    Proto,
    /// The daemon refused the command.
    Server,
}

/// A length of time as the daemon reports it: whole seconds and the
/// nanoseconds of the second that has begun.
#[derive(Clone, Copy, Debug, PartialEq, Eq, Structural)]
pub struct Span {
    pub secs: u64,
    pub nanos: u32,
}

impl Span {
    /// The whole seconds of the span; the fraction is dropped.
    pub fn whole_seconds(&self) -> (secs: u64)
        ensures
            secs == self.secs,
    {
        self.secs
    }
}

/// Where a song stands in the queue.
#[derive(Clone, Copy, Debug, PartialEq, Eq, Structural)]
pub struct QueuePlace {
    /// The id of the queue slot, unique within the current queue.
    pub id: u32,
    /// The zero-based position in the queue.
    pub pos: u32,
    /// The priority of the slot.
    pub prio: u8,
}

/// The part of a song that is queued for playback.
#[derive(Clone, Copy, Debug, PartialEq, Eq, Structural)]
pub struct SongRange {
    pub start: Span,
    pub end: Option<Span>,
}

/// The playback state that the daemon reports.
#[derive(Clone, Copy, Debug, PartialEq, Eq, Structural)]
pub enum DaemonState {
    Stop,
    Play,
    Pause,
}

/// The parts of the daemon that report changes.
#[derive(Clone, Copy, Debug, PartialEq, Eq, Structural)]
pub enum Subsystem {
    Database,
    Update,
    /// The stored playlists.
    Playlist,
    /// The play queue.
    Queue,
    Player,
    Mixer,
    Output,
    Options,
    Partition,
    Sticker,
    Subscription,
    Message,
    Neighbor,
    Mount,
}

/// A song record of the daemon.
#[derive(Clone, Debug, PartialEq)]
pub struct DaemonSong {
    /// The file path: the identity of the song.
    pub file: String,
    /// The name, for streams.
    pub name: Option<String>,
    pub title: Option<String>,
    /// The time of the last modification.
    pub last_mod: Option<String>,
    pub artist: Option<String>,
    pub duration: Option<Span>,
    /// The place in the queue, if the song is queued.
    pub place: Option<QueuePlace>,
    /// The range to play, if one was set.
    pub range: Option<SongRange>,
    /// All other tags, as pairs of name and value in the daemon's order.
    pub tags: Vec<(String, String)>,
}

/// A song record with its text as sequences of characters.
pub struct DaemonSongView {
    pub file: Seq<char>,
    pub name: Option<Seq<char>>,
    pub title: Option<Seq<char>>,
    pub last_mod: Option<Seq<char>>,
    pub artist: Option<Seq<char>>,
    pub duration: Option<Span>,
    pub place: Option<QueuePlace>,
    pub range: Option<SongRange>,
    pub tags: Seq<(Seq<char>, Seq<char>)>,
}

impl DeepView for DaemonSong {
    type V = DaemonSongView;

    open spec fn deep_view(&self) -> DaemonSongView {
        DaemonSongView {
            file: self.file@,
            name: self.name.deep_view(),
            title: self.title.deep_view(),
            last_mod: self.last_mod.deep_view(),
            artist: self.artist.deep_view(),
            duration: self.duration,
            place: self.place,
            range: self.range,
            tags: self.tags.deep_view(),
        }
    }
}

impl View for DaemonSong {
    type V = DaemonSongView;

    open spec fn view(&self) -> DaemonSongView {
        self.deep_view()
    }
}

impl DaemonSongView {
    /// The song reference that names a file and nothing else.
    pub open spec fn minimal(path: Seq<char>) -> DaemonSongView {
        DaemonSongView {
            file: path,
            name: None,
            title: None,
            last_mod: None,
            artist: None,
            duration: None,
            place: None,
            range: None,
            tags: Seq::empty(),
        }
    }
}

impl DaemonSong {
    /// The minimal song reference for a file path. The path is taken as it
    /// is; every other field is absent.
    pub fn from_path(path: String) -> (song: DaemonSong)
        ensures
            song@ == DaemonSongView::minimal(path@),
    {
        let song = DaemonSong {
            file: path,
            name: None,
            title: None,
            last_mod: None,
            artist: None,
            duration: None,
            place: None,
            range: None,
            tags: Vec::new(),
        };
        assert(song.tags.deep_view() =~= Seq::empty());
        song
    }
}

/// The status record of the daemon, as far as the service reads it.
#[derive(Clone, Copy, Debug, PartialEq, Eq, Structural)]
pub struct DaemonStatus {
    /// The volume from 0 to 100, or a value below zero where the daemon
    /// has none to report.
    pub volume: i8,
    pub repeat: bool,
    pub random: bool,
    pub single: bool,
    pub consume: bool,
    pub state: DaemonState,
    /// The queue slot of the current song, if the daemon names one.
    pub song: Option<QueuePlace>,
    /// The time played of the current song.
    pub elapsed: Option<Span>,
    /// The length of the current song.
    pub duration: Option<Span>,
}

} // verus!
