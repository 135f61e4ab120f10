//! Whole exchanges: which commands a request issues and how it ends, for a
//! given list of daemon replies.
//!
//! [`converse`] folds the transition of an exchange over the replies. The
//! laws below say what that gives for each kind of request; they hold of
//! every run of `Exchange::step`, whose result is the transition.

use crate::daemon::{DaemonFault, DaemonSongView, DaemonStatus};
use crate::envelope::ConnectionResultWrapper;
use crate::error::{classify, MpdError};
use crate::exchange::{
    after_albums, status_response, toggle_choice, CommandView, ExchangeView, PayloadView,
    ReplyView, RequestView, StepView,
};
use crate::library::{album_of, library_of, LibraryAlbumView};
use crate::song::shaped_songs;
use vstd::prelude::*;

verus! {

/// What an exchange did with a list of replies.
pub struct Conversation {
    /// The commands issued in answer to the replies, in order.
    pub issued: Seq<CommandView>,
    /// The response, if the replies sufficed to reach one.
    pub response: Option<ConnectionResultWrapper<PayloadView>>,
}

/// A conversation with one more command at its front.
pub open spec fn after(command: CommandView, rest: Conversation) -> Conversation {
    Conversation { issued: seq![command] + rest.issued, response: rest.response }
}

/// The conversation that ends with `envelope` at once.
pub open spec fn ended(envelope: ConnectionResultWrapper<PayloadView>) -> Conversation {
    Conversation { issued: Seq::empty(), response: Some(envelope) }
}

/// Feeds the replies to the exchange one after the other, as long as it
/// issues commands. Replies after the response are not read.
pub open spec fn converse(state: ExchangeView, replies: Seq<ReplyView>) -> Conversation
    decreases replies.len(),
{
    if replies.len() == 0 {
        Conversation { issued: Seq::empty(), response: None }
    } else {
        match state.step(replies[0]) {
            StepView::Respond(envelope) => ended(envelope),
            StepView::Issue(next, command) => after(command, converse(next, replies.drop_first())),
        }
    }
}

/// The kind of payload that a state is working towards.
pub enum Answer {
    Status,
    Queue,
    Library,
    QueueAdd,
}

impl PayloadView {
    /// The kind of a payload.
    pub open spec fn kind(self) -> Answer {
        match self {
            PayloadView::Status(_) => Answer::Status,
            PayloadView::Queue(_) => Answer::Queue,
            PayloadView::Library(_) => Answer::Library,
            PayloadView::QueueAdd(_) => Answer::QueueAdd,
        }
    }
}

impl RequestView {
    /// The kind of payload that answers a request. Every transport request
    /// is answered with the status.
    pub open spec fn answer(self) -> Answer {
        match self {
            RequestView::Status => Answer::Status,
            RequestView::PlaybackToggle => Answer::Status,
            RequestView::PlaybackPrev => Answer::Status,
            RequestView::PlaybackNext => Answer::Status,
            RequestView::Queue => Answer::Queue,
            RequestView::Library => Answer::Library,
            RequestView::QueueSong(_) => Answer::QueueAdd,
            RequestView::QueueAlbum(_) => Answer::QueueAdd,
        }
    }
}

impl ExchangeView {
    /// The kind of payload that a state is working towards.
    pub open spec fn answer(self) -> Answer {
        match self {
            ExchangeView::Connecting(request) => request.answer(),
            ExchangeView::TogglePending => Answer::Status,
            ExchangeView::TransportPending => Answer::Status,
            ExchangeView::StatusPending => Answer::Status,
            ExchangeView::CurrentSongPending(_) => Answer::Status,
            ExchangeView::QueuePending => Answer::Queue,
            ExchangeView::AlbumNamesPending => Answer::Library,
            ExchangeView::AlbumSongsPending { .. } => Answer::Library,
            ExchangeView::EnqueuePending(_) => Answer::QueueAdd,
        }
    }
}

/// A failure that the protocol client reports ends the exchange, whatever
/// command was pending, with the error kind of the failure.
pub proof fn lemma_failure_ends_exchange(state: ExchangeView, fault: DaemonFault)
    ensures
        state.step(ReplyView::Failed(fault)) == StepView::Respond(
            ConnectionResultWrapper::MpdError(classify(fault)),
        ),
        classify(fault) == MpdError::MpdErrorConnection <==> fault is Io,
{
}

/// The service never responds with the error kind that is reserved for the
/// client.
pub proof fn lemma_never_api_error(state: ExchangeView, reply: ReplyView)
    ensures
        state.step(reply) != StepView::Respond(
            ConnectionResultWrapper::MpdError(MpdError::MpdErrorApi),
        ),
{
}

/// An exchange uses one connection: no transition opens another.
pub proof fn lemma_one_connection(state: ExchangeView, reply: ReplyView)
    ensures
        state.step(reply) matches StepView::Issue(_, command) ==> command != CommandView::Connect,
{
}

/// A toggle request issues play where the daemon reports that playback is
/// stopped and never toggle-pause; in every other state it issues
/// toggle-pause and never play. The status is fetched after either.
pub proof fn lemma_toggle_rule(raw: DaemonStatus)
    ensures
        ExchangeView::TogglePending.step(ReplyView::Status(raw)) == StepView::Issue(
            ExchangeView::TransportPending,
            toggle_choice(raw.state),
        ),
        raw.state is Stop ==> toggle_choice(raw.state) == CommandView::Play,
        !(raw.state is Stop) ==> toggle_choice(raw.state) == CommandView::TogglePause,
        ExchangeView::TransportPending.step(ReplyView::Done) == StepView::Issue(
            ExchangeView::StatusPending,
            CommandView::Status,
        ),
{
}

/// The payload of a response is of the kind that answers the request: a
/// transition keeps the kind that the state works towards, and a payload
/// is of that kind.
pub proof fn lemma_payload_answers_request(state: ExchangeView, reply: ReplyView)
    ensures
        match state.step(reply) {
            StepView::Issue(next, _) => next.answer() == state.answer(),
            StepView::Respond(ConnectionResultWrapper::MpdOk(payload)) => payload.kind()
                == state.answer(),
            StepView::Respond(ConnectionResultWrapper::MpdError(_)) => true,
        },
{
}

/// The same, for a whole exchange.
pub proof fn lemma_response_answers_request(state: ExchangeView, replies: Seq<ReplyView>)
    ensures
        converse(state, replies).response matches Some(ConnectionResultWrapper::MpdOk(payload))
            ==> payload.kind() == state.answer(),
    decreases replies.len(),
{
    if replies.len() > 0 {
        lemma_payload_answers_request(state, replies[0]);
        match state.step(replies[0]) {
            StepView::Issue(next, _) => {
                lemma_response_answers_request(next, replies.drop_first());
            },
            StepView::Respond(_) => {},
        }
    }
}

/// Unfolds a conversation whose first reply makes the exchange issue a
/// command.
pub proof fn lemma_converse_issue(
    state: ExchangeView,
    reply: ReplyView,
    rest: Seq<ReplyView>,
    next: ExchangeView,
    command: CommandView,
)
    requires
        state.step(reply) == StepView::Issue(next, command),
    ensures
        converse(state, seq![reply] + rest) == after(command, converse(next, rest)),
{
    let replies = seq![reply] + rest;
    assert(replies[0] == reply);
    assert(replies.drop_first() =~= rest);
}

/// Unfolds a conversation whose first reply makes the exchange respond.
pub proof fn lemma_converse_respond(
    state: ExchangeView,
    reply: ReplyView,
    rest: Seq<ReplyView>,
    envelope: ConnectionResultWrapper<PayloadView>,
)
    requires
        state.step(reply) == StepView::Respond(envelope),
    ensures
        converse(state, seq![reply] + rest) == ended(envelope),
{
    let replies = seq![reply] + rest;
    assert(replies[0] == reply);
}

/// A status request fetches the status, looks up the current queue slot
/// where the status names one, and responds with the shaped status, or
/// with a communication error where the slot did not resolve.
pub proof fn lemma_status_exchange(raw: DaemonStatus, found: Option<DaemonSongView>)
    ensures
        raw.song is None ==> converse(ExchangeView::StatusPending, seq![ReplyView::Status(raw)])
            == ended(status_response(raw, None)),
        raw.song matches Some(place) ==> converse(
            ExchangeView::StatusPending,
            seq![ReplyView::Status(raw), ReplyView::Song(found)],
        ) == after(CommandView::PlaylistId(place.id), ended(status_response(raw, found))),
        raw.song is Some && found is None ==> status_response(raw, found)
            == ConnectionResultWrapper::<PayloadView>::MpdError(MpdError::MpdErrorCommunication),
{
    let state = ExchangeView::StatusPending;
    match raw.song {
        None => {
            lemma_converse_respond(
                state,
                ReplyView::Status(raw),
                Seq::empty(),
                status_response(raw, None),
            );
            assert(seq![ReplyView::Status(raw)] + Seq::empty() =~= seq![ReplyView::Status(raw)]);
        },
        Some(place) => {
            let pending = ExchangeView::CurrentSongPending(raw);
            lemma_converse_respond(
                pending,
                ReplyView::Song(found),
                Seq::empty(),
                status_response(raw, found),
            );
            assert(seq![ReplyView::Song(found)] + Seq::empty() =~= seq![ReplyView::Song(found)]);
            lemma_converse_issue(
                state,
                ReplyView::Status(raw),
                seq![ReplyView::Song(found)],
                pending,
                CommandView::PlaylistId(place.id),
            );
            assert(seq![ReplyView::Status(raw)] + seq![ReplyView::Song(found)] =~= seq![
                ReplyView::Status(raw),
                ReplyView::Song(found),
            ]);
        },
    }
}

/// Every request begins on a fresh connection with the daemon operation
/// that belongs to it; a failure to connect ends it with the error kind of
/// the failure.
pub proof fn lemma_request_opens(request: RequestView, rest: Seq<ReplyView>)
    ensures
        converse(ExchangeView::Connecting(request), seq![ReplyView::Done] + rest) == match request {
            RequestView::Status => after(
                CommandView::Status,
                converse(ExchangeView::StatusPending, rest),
            ),
            RequestView::Queue => after(
                CommandView::Queue,
                converse(ExchangeView::QueuePending, rest),
            ),
            RequestView::PlaybackToggle => after(
                CommandView::Status,
                converse(ExchangeView::TogglePending, rest),
            ),
            RequestView::PlaybackPrev => after(
                CommandView::Prev,
                converse(ExchangeView::TransportPending, rest),
            ),
            RequestView::PlaybackNext => after(
                CommandView::Next,
                converse(ExchangeView::TransportPending, rest),
            ),
            RequestView::Library => after(
                CommandView::ListAlbums,
                converse(ExchangeView::AlbumNamesPending, rest),
            ),
            RequestView::QueueSong(path) => after(
                CommandView::Push(DaemonSongView::minimal(path)),
                converse(ExchangeView::EnqueuePending(path), rest),
            ),
            RequestView::QueueAlbum(name) => after(
                CommandView::FindAddAlbum(name),
                converse(ExchangeView::EnqueuePending(name), rest),
            ),
        },
{
    let state = ExchangeView::Connecting(request);
    match state.step(ReplyView::Done) {
        StepView::Issue(next, command) => {
            lemma_converse_issue(state, ReplyView::Done, rest, next, command);
        },
        StepView::Respond(_) => {},
    }
}

/// After a transport command the status is fetched and shaped as for a
/// status request: the response is the status, never a bare
/// acknowledgement.
pub proof fn lemma_transport_returns_status(rest: Seq<ReplyView>)
    ensures
        converse(ExchangeView::TransportPending, seq![ReplyView::Done] + rest) == after(
            CommandView::Status,
            converse(ExchangeView::StatusPending, rest),
        ),
{
    lemma_converse_issue(
        ExchangeView::TransportPending,
        ReplyView::Done,
        rest,
        ExchangeView::StatusPending,
        CommandView::Status,
    );
}

/// A toggle request chooses its transport command from the status it
/// fetched, then goes on as every transport request does.
pub proof fn lemma_toggle_exchange(before: DaemonStatus, rest: Seq<ReplyView>)
    ensures
        converse(
            ExchangeView::TogglePending,
            seq![ReplyView::Status(before), ReplyView::Done] + rest,
        ) == after(
            toggle_choice(before.state),
            after(CommandView::Status, converse(ExchangeView::StatusPending, rest)),
        ),
{
    lemma_transport_returns_status(rest);
    lemma_converse_issue(
        ExchangeView::TogglePending,
        ReplyView::Status(before),
        seq![ReplyView::Done] + rest,
        ExchangeView::TransportPending,
        toggle_choice(before.state),
    );
    assert(seq![ReplyView::Status(before)] + (seq![ReplyView::Done] + rest) =~= seq![
        ReplyView::Status(before),
        ReplyView::Done,
    ] + rest);
}

/// A queue request responds with the daemon's listing, shaped song by song
/// in the daemon's order.
pub proof fn lemma_queue_exchange(raws: Seq<DaemonSongView>)
    ensures
        converse(ExchangeView::QueuePending, seq![ReplyView::Songs(raws)]) == ended(
            ConnectionResultWrapper::MpdOk(PayloadView::Queue(shaped_songs(raws))),
        ),
{
    lemma_converse_respond(
        ExchangeView::QueuePending,
        ReplyView::Songs(raws),
        Seq::empty(),
        ConnectionResultWrapper::MpdOk(PayloadView::Queue(shaped_songs(raws))),
    );
    assert(seq![ReplyView::Songs(raws)] + Seq::empty() =~= seq![ReplyView::Songs(raws)]);
}

/// An enqueue request echoes the text that the caller gave when the daemon
/// accepts the command, and responds with a connection or communication
/// error when the daemon or the transport fails.
pub proof fn lemma_enqueue_exchange(text: Seq<char>, fault: DaemonFault)
    ensures
        converse(ExchangeView::EnqueuePending(text), seq![ReplyView::Done]) == ended(
            ConnectionResultWrapper::MpdOk(PayloadView::QueueAdd(text)),
        ),
        converse(ExchangeView::EnqueuePending(text), seq![ReplyView::Failed(fault)]) == ended(
            ConnectionResultWrapper::MpdError(classify(fault)),
        ),
        classify(fault) == MpdError::MpdErrorConnection || classify(fault)
            == MpdError::MpdErrorCommunication,
{
    let state = ExchangeView::EnqueuePending(text);
    lemma_converse_respond(
        state,
        ReplyView::Done,
        Seq::empty(),
        ConnectionResultWrapper::MpdOk(PayloadView::QueueAdd(text)),
    );
    assert(seq![ReplyView::Done] + Seq::empty() =~= seq![ReplyView::Done]);
    lemma_converse_respond(
        state,
        ReplyView::Failed(fault),
        Seq::empty(),
        ConnectionResultWrapper::MpdError(classify(fault)),
    );
    assert(seq![ReplyView::Failed(fault)] + Seq::empty() =~= seq![ReplyView::Failed(fault)]);
}

/// The albums of a listing: for each name the album that the songs found
/// for it add up to.
pub open spec fn albums_of(
    names: Seq<Seq<char>>,
    found: Seq<Seq<DaemonSongView>>,
) -> Seq<LibraryAlbumView> {
    Seq::new(names.len(), |i: int| album_of(names[i], found[i]))
}

/// The replies to the searches of a library request, one per album.
pub open spec fn search_replies(found: Seq<Seq<DaemonSongView>>) -> Seq<ReplyView> {
    found.map_values(|raws: Seq<DaemonSongView>| ReplyView::Songs(raws))
}

/// The searches of a library request from album `from` on, one per album
/// name in the daemon's order.
pub open spec fn searches(names: Seq<Seq<char>>, from: int) -> Seq<CommandView> {
    Seq::new((names.len() - from) as nat, |i: int| CommandView::FindAlbum(names[from + i]))
}

/// The part of a library request that follows the answer to a search:
/// with `done` albums built, the exchange searches each of the other
/// albums in turn and responds with the whole listing.
pub proof fn lemma_library_rest(
    names: Seq<Seq<char>>,
    found: Seq<Seq<DaemonSongView>>,
    done: int,
)
    requires
        names.len() == found.len(),
        0 <= done < names.len(),
    ensures
        converse(
            ExchangeView::AlbumSongsPending { names, albums: albums_of(names, found).take(done) },
            search_replies(found).skip(done),
        ) == (Conversation {
            issued: searches(names, done + 1),
            response: Some(
                ConnectionResultWrapper::MpdOk(
                    PayloadView::Library(library_of(albums_of(names, found))),
                ),
            ),
        }),
    decreases names.len() - done,
{
    let all = albums_of(names, found);
    let albums = all.take(done);
    let state = ExchangeView::AlbumSongsPending { names, albums };
    let replies = search_replies(found).skip(done);
    let more = albums.push(album_of(names[done], found[done]));
    assert(replies.len() > 0);
    assert(replies[0] == ReplyView::Songs(found[done]));
    assert(more =~= all.take(done + 1));
    assert(state.step(replies[0]) == after_albums(names, more));
    assert(replies.drop_first() =~= search_replies(found).skip(done + 1));
    if done + 1 < names.len() {
        lemma_library_rest(names, found, done + 1);
        assert(seq![CommandView::FindAlbum(names[done + 1])] + searches(names, done + 2)
            =~= searches(names, done + 1));
    } else {
        assert(more =~= all);
        assert(searches(names, done + 1) =~= Seq::empty());
    }
}

/// A library request lists the album names, searches the songs of each
/// album in the order of the names, and responds with the listing that
/// holds one album per name: its songs in the order found, and artist and
/// identifiers by first match.
pub proof fn lemma_library_exchange(names: Seq<Seq<char>>, found: Seq<Seq<DaemonSongView>>)
    requires
        names.len() == found.len(),
    ensures
        converse(
            ExchangeView::AlbumNamesPending,
            seq![ReplyView::Names(names)] + search_replies(found),
        ) == (Conversation {
            issued: searches(names, 0),
            response: Some(
                ConnectionResultWrapper::MpdOk(
                    PayloadView::Library(library_of(albums_of(names, found))),
                ),
            ),
        }),
{
    let state = ExchangeView::AlbumNamesPending;
    let all = albums_of(names, found);
    let listing = ConnectionResultWrapper::MpdOk(PayloadView::Library(library_of(all)));
    if names.len() == 0 {
        assert(all =~= Seq::empty());
        lemma_converse_respond(state, ReplyView::Names(names), search_replies(found), listing);
        assert(searches(names, 0) =~= Seq::empty());
    } else {
        let pending = ExchangeView::AlbumSongsPending { names, albums: Seq::empty() };
        assert(all.take(0) =~= Seq::empty());
        assert(search_replies(found).skip(0) =~= search_replies(found));
        lemma_library_rest(names, found, 0);
        lemma_converse_issue(
            state,
            ReplyView::Names(names),
            search_replies(found),
            pending,
            CommandView::FindAlbum(names[0]),
        );
        assert(seq![CommandView::FindAlbum(names[0])] + searches(names, 1) =~= searches(names, 0));
    }
}

} // verus!
