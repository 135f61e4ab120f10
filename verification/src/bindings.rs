//! Text for the front-end's generated bindings.
//!
//! The front-end is written in Elm and decodes every response through one
//! generic envelope type. For each kind of response the bindings hold a
//! type alias and a decoder that instantiate the generic pair; this module
//! writes that text. Writing it to a file is left to the caller.

use vstd::prelude::*;
use vstd::string::{StrSliceExecFns, StringExecFns};

verus! {

/// The generic envelope type of the front-end and its decoder.
pub open spec fn envelope_binding_text() -> Seq<char> {
    "\ntype alias ConnectionResultWrapper a = Result MpdError a \n\n\nconnectionResultWrapperDecoder : Json.Decode.Decoder a -> Json.Decode.Decoder (ConnectionResultWrapper a)\nconnectionResultWrapperDecoder decoder = \n    Json.Decode.oneOf\n        [ Json.Decode.map Err (Json.Decode.field \"MpdError\" (mpdErrorDecoder))\n        , Json.Decode.map Ok (Json.Decode.field \"MpdOk\" (decoder))\n        ]\n\n\n"@
}

/// The generic envelope type of the front-end and its decoder: an object
/// with a member `MpdError` is an error, one with a member `MpdOk` a
/// success.
pub fn envelope_binding() -> (text: String)
    ensures
        text@ == envelope_binding_text(),
{
    String::from_str(
        "\ntype alias ConnectionResultWrapper a = Result MpdError a \n\n\nconnectionResultWrapperDecoder : Json.Decode.Decoder a -> Json.Decode.Decoder (ConnectionResultWrapper a)\nconnectionResultWrapperDecoder decoder = \n    Json.Decode.oneOf\n        [ Json.Decode.map Err (Json.Decode.field \"MpdError\" (mpdErrorDecoder))\n        , Json.Decode.map Ok (Json.Decode.field \"MpdOk\" (decoder))\n        ]\n\n\n",
    )
}

/// Whether a character is one byte of UTF-8.
pub open spec fn is_single_byte(c: char) -> bool {
    (c as u32) < 128
}

/// The lower-case form of a one-byte character: the letters `A` to `Z`
/// become `a` to `z`, every other character stays.
pub open spec fn lowered(c: char) -> char {
    if 'A' <= c && c <= 'Z' {
        ((c as u8) + 32) as char
    } else {
        c
    }
}

/// A name with its first character in lower case.
pub open spec fn lower_first(name: Seq<char>) -> Seq<char> {
    seq![lowered(name[0])] + name.skip(1)
}

/// The binding for one kind of response: the alias `name` for the envelope
/// around `inner`, and the decoder of `name`, which hands the decoder of
/// `inner` to the generic one. A decoder is named after its type, with the
/// first letter in lower case.
pub open spec fn binding_text(name: Seq<char>, inner: Seq<char>) -> Seq<char> {
    "type alias "@ + name + " = ConnectionResultWrapper "@ + inner + "\n\n"@ + lower_first(name)
        + "Decoder : Json.Decode.Decoder "@ + name + "\n"@ + lower_first(name)
        + "Decoder = connectionResultWrapperDecoder "@ + lower_first(inner) + "Decoder\n\n"@
}

/// `String::push` of std: the character is appended to the end of the
/// text, and the text before it stays as it was.
#[verifier::external_body]
fn push_char(text: &mut String, c: char)
    ensures
        final(text)@ == old(text)@.push(c),
{
    text.push(c)
}

/// The lower-case form of a one-byte character.
fn lower_char(c: char) -> (low: char)
    requires
        is_single_byte(c),
    ensures
        low == lowered(c),
{
    if 'A' <= c && c <= 'Z' {
        ((c as u8) + 32) as char
    } else {
        c
    }
}

/// Appends `name` with its first character in lower case.
fn append_lower_first(text: &mut String, name: &str)
    requires
        name@.len() > 0,
        is_single_byte(name@[0]),
    ensures
        final(text)@ == old(text)@ + lower_first(name@),
{
    let length = name.unicode_len();
    push_char(text, lower_char(name.get_char(0)));
    text.append(name.substring_char(1, length));
    assert(text@ =~= old(text)@ + lower_first(name@));
}

/// Writes the binding for one kind of response.
///
/// Both names must begin with a character of one byte: the first letter is
/// taken off by its byte.
pub fn cr_elm(name: &str, inner: &str) -> (text: String)
    requires
        name@.len() > 0,
        is_single_byte(name@[0]),
        inner@.len() > 0,
        is_single_byte(inner@[0]),
    ensures
        text@ == binding_text(name@, inner@),
{
    let mut text = String::from_str("type alias ");
    text.append(name);
    text.append(" = ConnectionResultWrapper ");
    text.append(inner);
    text.append("\n\n");
    append_lower_first(&mut text, name);
    text.append("Decoder : Json.Decode.Decoder ");
    text.append(name);
    text.append("\n");
    append_lower_first(&mut text, name);
    text.append("Decoder = connectionResultWrapperDecoder ");
    append_lower_first(&mut text, inner);
    text.append("Decoder\n\n");
    text
}

/// Whether `cr_elm` can write a binding for this name: the name is not
/// empty and begins with a character of one byte.
pub fn can_bind(name: &str) -> (ok: bool)
    ensures
        ok == (name@.len() > 0 && is_single_byte(name@[0])),
{
    if name.unicode_len() == 0 {
        return false;
    }
    (name.get_char(0) as u32) < 128
}

} // verus!
