//! One request, from the first daemon command to the response.
//!
//! A request is served over one daemon connection of its own. The program
//! that owns the connection performs commands; this module decides which
//! command comes next and what the response is. [`Exchange::begin`] gives
//! the first state and command, [`Exchange::step`] takes the daemon's reply
//! to the command last issued and returns either the next command or the
//! response, after which the exchange is over.
//!
//! Whatever goes wrong ends the exchange with an error envelope: a failure
//! that the protocol client reports is classified, and a reply of a kind
//! that the pending command cannot have is a communication error.

use crate::daemon::{DaemonFault, DaemonSong, DaemonSongView, DaemonState, DaemonStatus};
use crate::envelope::{wrap, ConnectionResultWrapper, MpdApi};
use crate::error::{classify, outcome_view, MpdError, MpdResult};
use crate::library::{album_of, library_of, Library, LibraryAlbum, LibraryAlbumView, LibraryView};
use crate::song::{shaped_songs, Queue, SongView};
use crate::status::{status_of, MpdStatus, MpdStatusView};
use vstd::prelude::*;

verus! {

/// What the front-end can ask for.
#[derive(Clone, Debug, PartialEq)]
pub enum Request {
    /// The status snapshot.
    Status,
    /// The play queue.
    Queue,
    /// Start playback if it is stopped, else toggle pause.
    PlaybackToggle,
    /// Go to the previous song.
    PlaybackPrev,
    /// Go to the next song.
    PlaybackNext,
    /// The library listing.
    Library,
    /// Append the file at this path to the queue.
    QueueSong(String),
    /// Append every song whose album tag equals this name to the queue.
    QueueAlbum(String),
}

pub enum RequestView {
    Status,
    Queue,
    PlaybackToggle,
    PlaybackPrev,
    PlaybackNext,
    Library,
    QueueSong(Seq<char>),
    QueueAlbum(Seq<char>),
}

impl DeepView for Request {
    type V = RequestView;

    open spec fn deep_view(&self) -> RequestView {
        match self {
            Request::Status => RequestView::Status,
            Request::Queue => RequestView::Queue,
            Request::PlaybackToggle => RequestView::PlaybackToggle,
            Request::PlaybackPrev => RequestView::PlaybackPrev,
            Request::PlaybackNext => RequestView::PlaybackNext,
            Request::Library => RequestView::Library,
            Request::QueueSong(path) => RequestView::QueueSong(path@),
            Request::QueueAlbum(name) => RequestView::QueueAlbum(name@),
        }
    }
}

impl View for Request {
    type V = RequestView;

    open spec fn view(&self) -> RequestView {
        self.deep_view()
    }
}

/// One daemon operation.
#[derive(Clone, Debug, PartialEq)]
pub enum Command {
    /// Open the connection to the daemon.
    Connect,
    /// Fetch the status record.
    Status,
    /// Look up the song in the queue slot with this id.
    PlaylistId(u32),
    /// List the queue.
    Queue,
    /// Start playback at the current queue position.
    Play,
    /// Pause if playing, resume if paused.
    TogglePause,
    Prev,
    Next,
    /// List the names of all albums.
    ListAlbums,
    /// Find the songs whose album tag equals this name.
    FindAlbum(String),
    /// Append this song to the queue.
    Push(DaemonSong),
    /// Find the songs whose album tag equals this name and append them all
    /// to the queue, in the daemon's order.
    FindAddAlbum(String),
}

pub enum CommandView {
    Connect,
    Status,
    PlaylistId(u32),
    Queue,
    Play,
    TogglePause,
    Prev,
    Next,
    ListAlbums,
    FindAlbum(Seq<char>),
    Push(DaemonSongView),
    FindAddAlbum(Seq<char>),
}

impl DeepView for Command {
    type V = CommandView;

    open spec fn deep_view(&self) -> CommandView {
        match self {
            Command::Connect => CommandView::Connect,
            Command::Status => CommandView::Status,
            Command::PlaylistId(id) => CommandView::PlaylistId(*id),
            Command::Queue => CommandView::Queue,
            Command::Play => CommandView::Play,
            Command::TogglePause => CommandView::TogglePause,
            Command::Prev => CommandView::Prev,
            Command::Next => CommandView::Next,
            Command::ListAlbums => CommandView::ListAlbums,
            Command::FindAlbum(name) => CommandView::FindAlbum(name@),
            Command::Push(song) => CommandView::Push(song@),
            Command::FindAddAlbum(name) => CommandView::FindAddAlbum(name@),
        }
    }
}

impl View for Command {
    type V = CommandView;

    open spec fn view(&self) -> CommandView {
        self.deep_view()
    }
}

/// What came back from the daemon for the command last issued.
#[derive(Clone, Debug, PartialEq)]
pub enum Reply {
    /// The command succeeded and returned nothing that the service reads.
    Done,
    Status(DaemonStatus),
    /// The answer to a lookup by queue-slot id.
    Song(Option<DaemonSong>),
    Songs(Vec<DaemonSong>),
    Names(Vec<String>),
    /// The protocol client reported a failure.
    Failed(DaemonFault),
}

pub enum ReplyView {
    Done,
    Status(DaemonStatus),
    Song(Option<DaemonSongView>),
    Songs(Seq<DaemonSongView>),
    Names(Seq<Seq<char>>),
    Failed(DaemonFault),
}

impl DeepView for Reply {
    type V = ReplyView;

    open spec fn deep_view(&self) -> ReplyView {
        match self {
            Reply::Done => ReplyView::Done,
            Reply::Status(raw) => ReplyView::Status(*raw),
            Reply::Song(found) => ReplyView::Song(found.deep_view()),
            Reply::Songs(raws) => ReplyView::Songs(raws.deep_view()),
            Reply::Names(names) => ReplyView::Names(names.deep_view()),
            Reply::Failed(fault) => ReplyView::Failed(*fault),
        }
    }
}

impl View for Reply {
    type V = ReplyView;

    open spec fn view(&self) -> ReplyView {
        self.deep_view()
    }
}

/// The confirmation of an enqueue request: the path or album name that the
/// caller gave, as it was given.
#[derive(Clone, Debug, PartialEq)]
pub struct QueueAdd(pub String);

/// The payload of a successful response.
#[derive(Clone, Debug, PartialEq)]
pub enum Payload {
    Status(MpdStatus),
    Queue(Queue),
    Library(Library),
    QueueAdd(QueueAdd),
}

pub enum PayloadView {
    Status(MpdStatusView),
    Queue(Seq<SongView>),
    Library(LibraryView),
    QueueAdd(Seq<char>),
}

impl DeepView for Payload {
    type V = PayloadView;

    open spec fn deep_view(&self) -> PayloadView {
        match self {
            Payload::Status(status) => PayloadView::Status(status@),
            Payload::Queue(queue) => PayloadView::Queue(queue@),
            Payload::Library(library) => PayloadView::Library(library@),
            Payload::QueueAdd(echo) => PayloadView::QueueAdd(echo.0@),
        }
    }
}

impl View for Payload {
    type V = PayloadView;

    open spec fn view(&self) -> PayloadView {
        self.deep_view()
    }
}

/// The state of an exchange: which command is pending, and what has been
/// gathered so far.
#[derive(Clone, Debug, PartialEq)]
pub enum Exchange {
    /// The connection is being opened for this request.
    Connecting(Request),
    /// The status was asked for to choose between play and toggle-pause.
    TogglePending,
    /// A transport command was issued; the status is fetched after it.
    TransportPending,
    /// The status was asked for and will be the payload.
    StatusPending,
    /// The current queue slot of this status record is being looked up.
    CurrentSongPending(DaemonStatus),
    QueuePending,
    AlbumNamesPending,
    /// The songs of the album `names[albums.len()]` were asked for;
    /// `albums` holds the albums before it.
    AlbumSongsPending { names: Vec<String>, albums: Vec<LibraryAlbum> },
    /// An enqueue command was issued; the text is echoed on success.
    EnqueuePending(String),
}

pub enum ExchangeView {
    Connecting(RequestView),
    TogglePending,
    TransportPending,
    StatusPending,
    CurrentSongPending(DaemonStatus),
    QueuePending,
    AlbumNamesPending,
    AlbumSongsPending { names: Seq<Seq<char>>, albums: Seq<LibraryAlbumView> },
    EnqueuePending(Seq<char>),
}

impl DeepView for Exchange {
    type V = ExchangeView;

    open spec fn deep_view(&self) -> ExchangeView {
        match self {
            Exchange::Connecting(request) => ExchangeView::Connecting(request@),
            Exchange::TogglePending => ExchangeView::TogglePending,
            Exchange::TransportPending => ExchangeView::TransportPending,
            Exchange::StatusPending => ExchangeView::StatusPending,
            Exchange::CurrentSongPending(raw) => ExchangeView::CurrentSongPending(*raw),
            Exchange::QueuePending => ExchangeView::QueuePending,
            Exchange::AlbumNamesPending => ExchangeView::AlbumNamesPending,
            Exchange::AlbumSongsPending { names, albums } => ExchangeView::AlbumSongsPending {
                names: names.deep_view(),
                albums: albums.deep_view(),
            },
            Exchange::EnqueuePending(echo) => ExchangeView::EnqueuePending(echo@),
        }
    }
}

impl View for Exchange {
    type V = ExchangeView;

    open spec fn view(&self) -> ExchangeView {
        self.deep_view()
    }
}

/// What an exchange does next.
#[derive(Clone, Debug, PartialEq)]
pub enum Step {
    /// Perform the command on the connection of this exchange and hand the
    /// reply to the new state.
    Issue(Exchange, Command),
    /// The exchange is over: send this envelope.
    Respond(MpdApi<Payload>),
}

pub enum StepView {
    Issue(ExchangeView, CommandView),
    Respond(ConnectionResultWrapper<PayloadView>),
}

impl DeepView for Step {
    type V = StepView;

    open spec fn deep_view(&self) -> StepView {
        match self {
            Step::Issue(state, command) => StepView::Issue(state@, command@),
            Step::Respond(envelope) => StepView::Respond(envelope.deep_view()),
        }
    }
}

impl View for Step {
    type V = StepView;

    open spec fn view(&self) -> StepView {
        self.deep_view()
    }
}

/// The transport command of a toggle request: play where playback is
/// stopped, since there is nothing to pause; toggle-pause in every other
/// state.
pub open spec fn toggle_choice(state: DaemonState) -> CommandView {
    if state is Stop {
        CommandView::Play
    } else {
        CommandView::TogglePause
    }
}

/// The first daemon operation of a request, once the connection is open.
pub open spec fn opening(request: RequestView) -> StepView {
    match request {
        RequestView::Status => StepView::Issue(ExchangeView::StatusPending, CommandView::Status),
        RequestView::Queue => StepView::Issue(ExchangeView::QueuePending, CommandView::Queue),
        RequestView::PlaybackToggle => StepView::Issue(
            ExchangeView::TogglePending,
            CommandView::Status,
        ),
        RequestView::PlaybackPrev => StepView::Issue(
            ExchangeView::TransportPending,
            CommandView::Prev,
        ),
        RequestView::PlaybackNext => StepView::Issue(
            ExchangeView::TransportPending,
            CommandView::Next,
        ),
        RequestView::Library => StepView::Issue(
            ExchangeView::AlbumNamesPending,
            CommandView::ListAlbums,
        ),
        RequestView::QueueSong(path) => StepView::Issue(
            ExchangeView::EnqueuePending(path),
            CommandView::Push(DaemonSongView::minimal(path)),
        ),
        RequestView::QueueAlbum(name) => StepView::Issue(
            ExchangeView::EnqueuePending(name),
            CommandView::FindAddAlbum(name),
        ),
    }
}

/// The response to a request for the status, from the status record and
/// the answer to the lookup of its current queue slot.
pub open spec fn status_response(
    raw: DaemonStatus,
    found: Option<DaemonSongView>,
) -> ConnectionResultWrapper<PayloadView> {
    match status_of(raw, found) {
        Ok(status) => ConnectionResultWrapper::MpdOk(PayloadView::Status(status)),
        Err(kind) => ConnectionResultWrapper::MpdError(kind),
    }
}

/// What a library request does once `albums` holds the first albums of
/// `names`: ask for the songs of the next album, or respond with the
/// listing when none is left.
pub open spec fn after_albums(names: Seq<Seq<char>>, albums: Seq<LibraryAlbumView>) -> StepView {
    if albums.len() < names.len() {
        StepView::Issue(
            ExchangeView::AlbumSongsPending { names, albums },
            CommandView::FindAlbum(names[albums.len() as int]),
        )
    } else {
        StepView::Respond(ConnectionResultWrapper::MpdOk(PayloadView::Library(library_of(albums))))
    }
}

/// The response to a reply of a kind that the pending command cannot have.
pub open spec fn unexpected() -> StepView {
    StepView::Respond(ConnectionResultWrapper::MpdError(MpdError::MpdErrorCommunication))
}

impl ExchangeView {
    /// The transition of an exchange on the reply to its pending command.
    pub open spec fn step(self, reply: ReplyView) -> StepView {
        match reply {
            ReplyView::Failed(fault) => StepView::Respond(
                ConnectionResultWrapper::MpdError(classify(fault)),
            ),
            ReplyView::Done => match self {
                ExchangeView::Connecting(request) => opening(request),
                ExchangeView::TransportPending => StepView::Issue(
                    ExchangeView::StatusPending,
                    CommandView::Status,
                ),
                ExchangeView::EnqueuePending(echo) => StepView::Respond(
                    ConnectionResultWrapper::MpdOk(PayloadView::QueueAdd(echo)),
                ),
                _ => unexpected(),
            },
            ReplyView::Status(raw) => match self {
                ExchangeView::TogglePending => StepView::Issue(
                    ExchangeView::TransportPending,
                    toggle_choice(raw.state),
                ),
                ExchangeView::StatusPending => match raw.song {
                    Some(place) => StepView::Issue(
                        ExchangeView::CurrentSongPending(raw),
                        CommandView::PlaylistId(place.id),
                    ),
                    None => StepView::Respond(status_response(raw, None)),
                },
                _ => unexpected(),
            },
            ReplyView::Song(found) => match self {
                ExchangeView::CurrentSongPending(raw) => StepView::Respond(
                    status_response(raw, found),
                ),
                _ => unexpected(),
            },
            ReplyView::Songs(raws) => match self {
                ExchangeView::QueuePending => StepView::Respond(
                    ConnectionResultWrapper::MpdOk(PayloadView::Queue(shaped_songs(raws))),
                ),
                ExchangeView::AlbumSongsPending { names, albums } => if albums.len()
                    < names.len() {
                    after_albums(names, albums.push(album_of(names[albums.len() as int], raws)))
                } else {
                    unexpected()
                },
                _ => unexpected(),
            },
            ReplyView::Names(names) => match self {
                ExchangeView::AlbumNamesPending => after_albums(names, Seq::empty()),
                _ => unexpected(),
            },
        }
    }
}

/// Chooses the transport command of a toggle request from the playback
/// state that the daemon reports.
pub fn toggle_command(state: DaemonState) -> (command: Command)
    ensures
        command@ == toggle_choice(state),
        state == DaemonState::Stop <==> command == Command::Play,
        state != DaemonState::Stop <==> command == Command::TogglePause,
{
    match state {
        DaemonState::Stop => Command::Play,
        _ => Command::TogglePause,
    }
}

/// Ends the exchange with the envelope around an outcome. Every response
/// is made here.
fn respond(outcome: MpdResult<Payload>) -> (step: Step)
    ensures
        step@ == StepView::Respond(wrap(outcome_view(outcome))),
{
    Step::Respond(ConnectionResultWrapper::from_outcome(outcome))
}

/// The response to a reply of a kind that the pending command cannot have.
fn reject() -> (step: Step)
    ensures
        step@ == unexpected(),
{
    respond(Err(MpdError::MpdErrorCommunication))
}

/// Asks for the songs of the next album, or responds with the listing when
/// none is left.
fn continue_library(names: Vec<String>, albums: Vec<LibraryAlbum>) -> (step: Step)
    ensures
        step@ == after_albums(names.deep_view(), albums.deep_view()),
{
    if albums.len() < names.len() {
        let name = names[albums.len()].clone();
        Step::Issue(Exchange::AlbumSongsPending { names, albums }, Command::FindAlbum(name))
    } else {
        respond(Ok(Payload::Library(Library::from_albums(albums))))
    }
}

/// Responds to a request for the status.
fn respond_status(raw: DaemonStatus, found: Option<DaemonSong>) -> (step: Step)
    ensures
        step@ == StepView::Respond(status_response(raw, found.deep_view())),
{
    match MpdStatus::get(raw, found) {
        Ok(status) => respond(Ok(Payload::Status(status))),
        Err(kind) => respond(Err(kind)),
    }
}

impl Exchange {
    /// Starts the exchange for a request: the connection is opened first.
    pub fn begin(request: Request) -> (start: (Exchange, Command))
        ensures
            start.0@ == ExchangeView::Connecting(request@),
            start.1@ == CommandView::Connect,
    {
        (Exchange::Connecting(request), Command::Connect)
    }

    /// The first daemon operation of a request, once the connection is open.
    fn open(request: Request) -> (step: Step)
        ensures
            step@ == opening(request@),
    {
        match request {
            Request::Status => Step::Issue(Exchange::StatusPending, Command::Status),
            Request::Queue => Step::Issue(Exchange::QueuePending, Command::Queue),
            Request::PlaybackToggle => Step::Issue(Exchange::TogglePending, Command::Status),
            Request::PlaybackPrev => Step::Issue(Exchange::TransportPending, Command::Prev),
            Request::PlaybackNext => Step::Issue(Exchange::TransportPending, Command::Next),
            Request::Library => Step::Issue(Exchange::AlbumNamesPending, Command::ListAlbums),
            Request::QueueSong(path) => {
                let song = DaemonSong::from_path(path.clone());
                Step::Issue(Exchange::EnqueuePending(path), Command::Push(song))
            },
            Request::QueueAlbum(name) => {
                let filter = name.clone();
                Step::Issue(Exchange::EnqueuePending(name), Command::FindAddAlbum(filter))
            },
        }
    }

    /// Takes the reply to the pending command and says what comes next:
    /// another command, or the response.
    pub fn step(self, reply: Reply) -> (next: Step)
        ensures
            next@ == self@.step(reply@),
    {
        match reply {
            Reply::Failed(fault) => respond(Err(MpdError::from(fault))),
            Reply::Done => match self {
                Exchange::Connecting(request) => Exchange::open(request),
                Exchange::TransportPending => Step::Issue(Exchange::StatusPending, Command::Status),
                Exchange::EnqueuePending(echo) => respond(Ok(Payload::QueueAdd(QueueAdd(echo)))),
                _ => reject(),
            },
            Reply::Status(raw) => match self {
                Exchange::TogglePending => Step::Issue(
                    Exchange::TransportPending,
                    toggle_command(raw.state),
                ),
                Exchange::StatusPending => match raw.song {
                    Some(place) => Step::Issue(
                        Exchange::CurrentSongPending(raw),
                        Command::PlaylistId(place.id),
                    ),
                    None => respond_status(raw, None),
                },
                _ => reject(),
            },
            Reply::Song(found) => match self {
                Exchange::CurrentSongPending(raw) => respond_status(raw, found),
                _ => reject(),
            },
            Reply::Songs(raws) => match self {
                Exchange::QueuePending => respond(Ok(Payload::Queue(Queue::from_songs(raws)))),
                Exchange::AlbumSongsPending { names, albums } => {
                    if albums.len() < names.len() {
                        let ghost before = albums.deep_view();
                        let name = names[albums.len()].clone();
                        let album = LibraryAlbum::from_songs(name, raws);
                        let mut albums = albums;
                        albums.push(album);
                        assert(albums.deep_view() =~= before.push(album@));
                        continue_library(names, albums)
                    } else {
                        reject()
                    }
                },
                _ => reject(),
            },
            Reply::Names(names) => match self {
                Exchange::AlbumNamesPending => {
                    let albums: Vec<LibraryAlbum> = Vec::new();
                    assert(albums.deep_view() =~= Seq::empty());
                    continue_library(names, albums)
                },
                _ => reject(),
            },
        }
    }
}

} // verus!
