//! The envelope as text on the wire.
//!
//! A response body is a JSON object with one member. Its name tells the
//! two shapes apart: `{"MpdError":"<kind>"}` holds one of the three error
//! kinds by name, `{"MpdOk":<payload>}` holds the payload. This module
//! puts the frame around a payload that is JSON text already, and takes it
//! off again; what the payload says is the business of whoever serialised
//! it.

use crate::envelope::{ConnectionResultWrapper, MpdApi};
use crate::error::MpdError;
use vstd::prelude::*;
use vstd::string::{StrSliceExecFns, StringExecFns};

verus! {

/// The body of an error response.
pub open spec fn error_frame(kind: MpdError) -> Seq<char> {
    match kind {
        MpdError::MpdErrorApi => "{\"MpdError\":\"MpdErrorApi\"}"@,
        MpdError::MpdErrorConnection => "{\"MpdError\":\"MpdErrorConnection\"}"@,
        MpdError::MpdErrorCommunication => "{\"MpdError\":\"MpdErrorCommunication\"}"@,
    }
}

/// What stands before the payload of a success.
pub open spec fn ok_open() -> Seq<char> {
    "{\"MpdOk\":"@
}

/// What stands after the payload of a success.
pub open spec fn ok_close() -> Seq<char> {
    "}"@
}

/// The body of a response.
pub open spec fn encoded(envelope: ConnectionResultWrapper<Seq<char>>) -> Seq<char> {
    match envelope {
        ConnectionResultWrapper::MpdError(kind) => error_frame(kind),
        ConnectionResultWrapper::MpdOk(payload) => ok_open() + payload + ok_close(),
    }
}

/// The envelope that a body holds, if the body has one of the two shapes.
pub open spec fn decoded(text: Seq<char>) -> Option<ConnectionResultWrapper<Seq<char>>> {
    if text == error_frame(MpdError::MpdErrorApi) {
        Some(ConnectionResultWrapper::MpdError(MpdError::MpdErrorApi))
    } else if text == error_frame(MpdError::MpdErrorConnection) {
        Some(ConnectionResultWrapper::MpdError(MpdError::MpdErrorConnection))
    } else if text == error_frame(MpdError::MpdErrorCommunication) {
        Some(ConnectionResultWrapper::MpdError(MpdError::MpdErrorCommunication))
    } else if text.len() >= 10 && text.subrange(0, 9) == ok_open() && text.last() == '}' {
        Some(ConnectionResultWrapper::MpdOk(text.subrange(9, text.len() - 1)))
    } else {
        None
    }
}

/// What the literals of the frame hold.
proof fn lemma_frame_literals()
    ensures
        error_frame(MpdError::MpdErrorApi).len() == 26,
        error_frame(MpdError::MpdErrorConnection).len() == 33,
        error_frame(MpdError::MpdErrorCommunication).len() == 36,
        error_frame(MpdError::MpdErrorApi)[5] == 'E',
        error_frame(MpdError::MpdErrorConnection)[5] == 'E',
        error_frame(MpdError::MpdErrorCommunication)[5] == 'E',
        ok_open().len() == 9,
        ok_open()[5] == 'O',
        ok_close() == seq!['}'],
{
    reveal_strlit("{\"MpdError\":\"MpdErrorApi\"}");
    reveal_strlit("{\"MpdError\":\"MpdErrorConnection\"}");
    reveal_strlit("{\"MpdError\":\"MpdErrorCommunication\"}");
    reveal_strlit("{\"MpdOk\":");
    reveal_strlit("}");
    assert(ok_close() =~= seq!['}']);
}

/// Decoding what was encoded gives the envelope back: the payload of a
/// success as it was, the kind of an error as it was.
pub proof fn lemma_round_trip(envelope: ConnectionResultWrapper<Seq<char>>)
    ensures
        decoded(encoded(envelope)) == Some(envelope),
{
    lemma_frame_literals();
    match envelope {
        ConnectionResultWrapper::MpdError(kind) => {},
        ConnectionResultWrapper::MpdOk(payload) => {
            let text = encoded(envelope);
            assert(text[5] == ok_open()[5]);
            assert(text.subrange(0, 9) =~= ok_open());
            assert(text.subrange(9, text.len() - 1) =~= payload);
        },
    }
}

/// Nothing but an encoded envelope decodes: a body that decodes is the
/// encoding of the envelope it decodes to. So the two shapes are all there
/// is, and no body has both.
pub proof fn lemma_decodes_only_encoded(text: Seq<char>)
    ensures
        decoded(text) matches Some(envelope) ==> encoded(envelope) == text,
{
    lemma_frame_literals();
    match decoded(text) {
        Some(ConnectionResultWrapper::MpdOk(payload)) => {
            assert(ok_open() + payload + ok_close() =~= text);
        },
        _ => {},
    }
}

/// The two shapes exclude each other: no body is both an error and a
/// success, and bodies of different envelopes differ.
pub proof fn lemma_shapes_exclusive(
    one: ConnectionResultWrapper<Seq<char>>,
    other: ConnectionResultWrapper<Seq<char>>,
)
    ensures
        encoded(one) == encoded(other) ==> one == other,
        one is MpdOk && other is MpdError ==> encoded(one) != encoded(other),
{
    lemma_round_trip(one);
    lemma_round_trip(other);
}

/// The body of an error response.
pub fn encode_error(kind: MpdError) -> (text: String)
    ensures
        text@ == error_frame(kind),
{
    match kind {
        MpdError::MpdErrorApi => String::from_str("{\"MpdError\":\"MpdErrorApi\"}"),
        MpdError::MpdErrorConnection => String::from_str("{\"MpdError\":\"MpdErrorConnection\"}"),
        MpdError::MpdErrorCommunication => String::from_str(
            "{\"MpdError\":\"MpdErrorCommunication\"}",
        ),
    }
}

/// Encodes a response whose payload is JSON text already.
pub fn encode(envelope: &MpdApi<String>) -> (text: String)
    ensures
        text@ == encoded(envelope.deep_view()),
{
    match envelope {
        ConnectionResultWrapper::MpdError(kind) => encode_error(*kind),
        ConnectionResultWrapper::MpdOk(payload) => {
            let mut text = String::from_str("{\"MpdOk\":");
            text.append(payload.as_str());
            text.append("}");
            text
        },
    }
}

/// Whether two pieces of text are the same.
fn same_text(one: &str, other: &str) -> (same: bool)
    ensures
        same == (one@ == other@),
{
    String::from_str(one) == String::from_str(other)
}

/// Decodes a response body. The payload of a success comes back as the
/// text that stood in the frame.
pub fn decode(text: &str) -> (envelope: Option<MpdApi<String>>)
    ensures
        envelope.deep_view() == decoded(text@),
{
    if same_text(text, "{\"MpdError\":\"MpdErrorApi\"}") {
        return Some(ConnectionResultWrapper::MpdError(MpdError::MpdErrorApi));
    }
    if same_text(text, "{\"MpdError\":\"MpdErrorConnection\"}") {
        return Some(ConnectionResultWrapper::MpdError(MpdError::MpdErrorConnection));
    }
    if same_text(text, "{\"MpdError\":\"MpdErrorCommunication\"}") {
        return Some(ConnectionResultWrapper::MpdError(MpdError::MpdErrorCommunication));
    }
    let length = text.unicode_len();
    if length < 10 {
        return None;
    }
    if !same_text(text.substring_char(0, 9), "{\"MpdOk\":") {
        return None;
    }
    if text.get_char(length - 1) != '}' {
        return None;
    }
    Some(ConnectionResultWrapper::MpdOk(String::from_str(text.substring_char(9, length - 1))))
}

} // verus!
