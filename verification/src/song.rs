//! Songs and queue entries in the shape of the wire contract.

use crate::daemon::{DaemonSong, DaemonSongView, QueuePlace, Span};
use crate::error::{MpdError, MpdResult};
use vstd::prelude::*;

verus! {

/// A song as the front-end receives it.
#[derive(Clone, Debug, PartialEq)]
pub struct Song {
    pub file: String,
    pub name: Option<String>,
    pub title: Option<String>,
    pub artist: Option<String>,
    /// The length in whole seconds.
    pub duration: Option<u64>,
    pub tags: Vec<(String, String)>,
    /// The id of the queue slot, where the daemon's record carried one.
    pub queue_id: Option<u32>,
}

pub struct SongView {
    pub file: Seq<char>,
    pub name: Option<Seq<char>>,
    pub title: Option<Seq<char>>,
    pub artist: Option<Seq<char>>,
    pub duration: Option<u64>,
    pub tags: Seq<(Seq<char>, Seq<char>)>,
    pub queue_id: Option<u32>,
}

impl DeepView for Song {
    type V = SongView;

    open spec fn deep_view(&self) -> SongView {
        SongView {
            file: self.file@,
            name: self.name.deep_view(),
            title: self.title.deep_view(),
            artist: self.artist.deep_view(),
            duration: self.duration,
            tags: self.tags.deep_view(),
            queue_id: self.queue_id,
        }
    }
}

impl View for Song {
    type V = SongView;

    open spec fn view(&self) -> SongView {
        self.deep_view()
    }
}

/// The whole seconds of a length of time that may be unknown.
pub open spec fn whole_seconds(span: Option<Span>) -> Option<u64> {
    match span {
        Some(d) => Some(d.secs),
        None => None,
    }
}

impl DaemonSongView {
    /// The wire shape of a daemon record: text fields and tags are copied,
    /// the length is cut to whole seconds, and of the queue place only the
    /// slot id is kept.
    pub open spec fn shaped(self) -> SongView {
        SongView {
            file: self.file,
            name: self.name,
            title: self.title,
            artist: self.artist,
            duration: whole_seconds(self.duration),
            tags: self.tags,
            queue_id: match self.place {
                Some(place) => Some(place.id),
                None => None,
            },
        }
    }
}

/// The whole seconds of a length of time that may be unknown.
pub fn seconds_of(span: Option<Span>) -> (secs: Option<u64>)
    ensures
        secs == whole_seconds(span),
{
    match span {
        Some(d) => Some(d.whole_seconds()),
        None => None,
    }
}

impl Song {
    /// Shapes the answer to a lookup by queue-slot id. A slot that the
    /// daemon could not resolve to a record is a communication error.
    pub fn from_playlist_id(found: Option<DaemonSong>) -> (shaped: MpdResult<Song>)
        ensures
            match found {
                Some(raw) => shaped is Ok && shaped->Ok_0@ == raw@.shaped(),
                None => shaped == Err::<Song, MpdError>(MpdError::MpdErrorCommunication),
            },
    {
        match found {
            Some(raw) => Ok(Song::from_song(raw)),
            None => Err(MpdError::MpdErrorCommunication),
        }
    }

    /// Shapes a daemon record. This never fails: every field is copied or
    /// absent.
    pub fn from_song(raw: DaemonSong) -> (song: Song)
        ensures
            song@ == raw@.shaped(),
    {
        Song {
            file: raw.file,
            name: raw.name,
            title: raw.title,
            artist: raw.artist,
            duration: seconds_of(raw.duration),
            tags: raw.tags,
            queue_id: match raw.place {
                Some(place) => Some(place.id),
                None => None,
            },
        }
    }
}

/// The wire shapes of a list of daemon records, in the same order.
pub open spec fn shaped_songs(raws: Seq<DaemonSongView>) -> Seq<SongView> {
    raws.map_values(|raw: DaemonSongView| raw.shaped())
}

/// Shapes every record of a list, keeping the daemon's order.
pub fn shape_songs(raws: Vec<DaemonSong>) -> (songs: Vec<Song>)
    ensures
        songs.deep_view() == shaped_songs(raws.deep_view()),
{
    let mut songs: Vec<Song> = Vec::new();
    for raw in it: raws
        invariant
            songs.len() == it.index(),
            it.seq() == raws@,
            forall|j: int| 0 <= j < songs.len() ==> (#[trigger] songs[j])@ == raws[j]@.shaped(),
    {
        songs.push(Song::from_song(raw));
    }
    assert(songs.deep_view() =~= shaped_songs(raws.deep_view()));
    songs
}

/// The play queue: its songs in queue order. The position of a song is its
/// place in the list.
#[derive(Clone, Debug, PartialEq)]
pub struct Queue(pub Vec<Song>);

impl DeepView for Queue {
    type V = Seq<SongView>;

    open spec fn deep_view(&self) -> Seq<SongView> {
        self.0.deep_view()
    }
}

impl View for Queue {
    type V = Seq<SongView>;

    open spec fn view(&self) -> Seq<SongView> {
        self.deep_view()
    }
}

impl Queue {
    /// Shapes the queue from the daemon's listing of it.
    pub fn from_songs(raws: Vec<DaemonSong>) -> (queue: Queue)
        ensures
            queue@ == shaped_songs(raws.deep_view()),
    {
        Queue(shape_songs(raws))
    }
}

/// A song together with the queue slot it was found in.
#[derive(Clone, Debug, PartialEq)]
pub struct QueueSong {
    pub queue_id: u32,
    /// The zero-based position, as the daemon gave it for this request.
    pub queue_pos: u32,
    pub song: Song,
}

pub struct QueueSongView {
    pub queue_id: u32,
    pub queue_pos: u32,
    pub song: SongView,
}

impl DeepView for QueueSong {
    type V = QueueSongView;

    open spec fn deep_view(&self) -> QueueSongView {
        QueueSongView { queue_id: self.queue_id, queue_pos: self.queue_pos, song: self.song@ }
    }
}

impl View for QueueSong {
    type V = QueueSongView;

    open spec fn view(&self) -> QueueSongView {
        self.deep_view()
    }
}

/// The queue entry for a slot and the record that the slot resolved to.
pub open spec fn queue_entry(raw: DaemonSongView, place: QueuePlace) -> QueueSongView {
    QueueSongView { queue_id: place.id, queue_pos: place.pos, song: raw.shaped() }
}

impl QueueSong {
    /// Shapes the song of a queue slot from the answer to its lookup. The
    /// slot gives id and position, the record the song. A slot that the
    /// daemon could not resolve is a communication error.
    pub fn from_place(found: Option<DaemonSong>, place: QueuePlace) -> (shaped: MpdResult<
        QueueSong,
    >)
        ensures
            match found {
                Some(raw) => shaped is Ok && shaped->Ok_0@ == queue_entry(raw@, place),
                None => shaped == Err::<QueueSong, MpdError>(MpdError::MpdErrorCommunication),
            },
    {
        match Song::from_playlist_id(found) {
            Ok(song) => Ok(QueueSong { song, queue_id: place.id, queue_pos: place.pos }),
            Err(kind) => Err(kind),
        }
    }
}

} // verus!
