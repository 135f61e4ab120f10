use jukebox_api::bindings::{can_bind, cr_elm, envelope_binding};
use jukebox_api::envelope::ConnectionResultWrapper;
use jukebox_api::error::MpdError;
use jukebox_api::wire::{decode, encode, encode_error};

fn ok(payload: &str) -> ConnectionResultWrapper<String> {
    ConnectionResultWrapper::MpdOk(payload.to_string())
}

#[test]
fn error_bodies() {
    assert_eq!(encode_error(MpdError::MpdErrorApi), r#"{"MpdError":"MpdErrorApi"}"#);
    assert_eq!(encode_error(MpdError::MpdErrorConnection), r#"{"MpdError":"MpdErrorConnection"}"#);
    assert_eq!(
        encode_error(MpdError::MpdErrorCommunication),
        r#"{"MpdError":"MpdErrorCommunication"}"#
    );
    assert_eq!(
        encode(&ConnectionResultWrapper::MpdError(MpdError::MpdErrorConnection)),
        r#"{"MpdError":"MpdErrorConnection"}"#
    );
}

#[test]
fn enqueue_confirmation_body() {
    let payload = serde_json::to_string("music/a.mp3").unwrap();
    assert_eq!(encode(&ok(&payload)), r#"{"MpdOk":"music/a.mp3"}"#);
}

#[test]
fn success_body_is_the_json_that_the_frame_promises() {
    let mut status = serde_json::Map::new();
    status.insert("state".to_string(), serde_json::Value::String("Stop".to_string()));
    status.insert("current_song".to_string(), serde_json::Value::Null);
    let payload = serde_json::Value::Object(status);
    let body = encode(&ok(&serde_json::to_string(&payload).unwrap()));
    let parsed: serde_json::Value = serde_json::from_str(&body).unwrap();
    let members = parsed.as_object().unwrap();
    assert_eq!(members.len(), 1);
    assert_eq!(members.get("MpdOk"), Some(&payload));
    assert_eq!(members["MpdOk"]["state"], serde_json::Value::String("Stop".to_string()));
    assert_eq!(members["MpdOk"]["current_song"], serde_json::Value::Null);
}

#[test]
fn error_body_is_json_with_the_kind_by_name() {
    for (kind, name) in [
        (MpdError::MpdErrorApi, "MpdErrorApi"),
        (MpdError::MpdErrorConnection, "MpdErrorConnection"),
        (MpdError::MpdErrorCommunication, "MpdErrorCommunication"),
    ] {
        let parsed: serde_json::Value = serde_json::from_str(&encode_error(kind)).unwrap();
        let members = parsed.as_object().unwrap();
        assert_eq!(members.len(), 1);
        assert_eq!(members.get("MpdError"), Some(&serde_json::Value::String(name.to_string())));
    }
}

#[test]
fn round_trip_of_a_success() {
    for payload in ["\"music/a.mp3\"", "{\"state\":\"Stop\"}", "[]", "", "}", "null", "\"ü}\""] {
        assert_eq!(decode(&encode(&ok(payload))), Some(ok(payload)));
    }
}

#[test]
fn round_trip_of_an_error() {
    for kind in
        [MpdError::MpdErrorApi, MpdError::MpdErrorConnection, MpdError::MpdErrorCommunication]
    {
        let envelope = ConnectionResultWrapper::MpdError(kind);
        assert_eq!(decode(&encode(&envelope)), Some(envelope));
    }
}

#[test]
fn no_third_shape_decodes() {
    for body in [
        "",
        "{}",
        "null",
        "{\"MpdOk\":",
        "{\"MpdOk\"}",
        "{\"MpdOk\":1",
        "{\"Mpdok\":1}",
        "{\"MpdError\":\"Other\"}",
        "{\"MpdError\":\"MpdErrorApi\"",
        "{\"MpdError\":MpdErrorApi}",
        "{\"MpdError\":\"MpdErrorApi\"} ",
        " {\"MpdOk\":1}",
        "{\"Other\":1}",
    ] {
        assert_eq!(decode(body), None, "{body}");
    }
}

#[test]
fn what_decodes_is_an_encoding() {
    for body in ["{\"MpdOk\":1}", "{\"MpdOk\":}", "{\"MpdOk\":{\"a\":[1,2]}}"] {
        let envelope = decode(body).unwrap();
        assert!(matches!(envelope, ConnectionResultWrapper::MpdOk(_)));
        assert_eq!(encode(&envelope), body);
    }
    assert_eq!(decode("{\"MpdOk\":1}"), Some(ok("1")));
    assert_eq!(decode("{\"MpdOk\":}"), Some(ok("")));
}

#[test]
fn binding_for_the_status_response() {
    assert_eq!(
        cr_elm("StatusResponse", "MpdStatus"),
        "type alias StatusResponse = ConnectionResultWrapper MpdStatus\n\n\
         statusResponseDecoder : Json.Decode.Decoder StatusResponse\n\
         statusResponseDecoder = connectionResultWrapperDecoder mpdStatusDecoder\n\n"
    );
}

#[test]
fn binding_lowers_the_first_letter_only() {
    assert_eq!(
        cr_elm("QueueAddResponse", "QueueAdd"),
        "type alias QueueAddResponse = ConnectionResultWrapper QueueAdd\n\n\
         queueAddResponseDecoder : Json.Decode.Decoder QueueAddResponse\n\
         queueAddResponseDecoder = connectionResultWrapperDecoder queueAddDecoder\n\n"
    );
    assert_eq!(
        cr_elm("already", "Zé"),
        "type alias already = ConnectionResultWrapper Zé\n\n\
         alreadyDecoder : Json.Decode.Decoder already\n\
         alreadyDecoder = connectionResultWrapperDecoder zéDecoder\n\n"
    );
    assert_eq!(
        cr_elm("_X", "9"),
        "type alias _X = ConnectionResultWrapper 9\n\n\
         _XDecoder : Json.Decode.Decoder _X\n\
         _XDecoder = connectionResultWrapperDecoder 9Decoder\n\n"
    );
}

#[test]
fn names_that_can_be_bound() {
    assert!(can_bind("Queue"));
    assert!(can_bind("q"));
    assert!(can_bind("~"));
    assert!(!can_bind(""));
    assert!(!can_bind("Éclair"));
}

#[test]
fn envelope_binding_text() {
    let text = envelope_binding();
    assert!(text.starts_with("\ntype alias ConnectionResultWrapper a = Result MpdError a \n\n\n"));
    assert!(text.contains(
        "connectionResultWrapperDecoder : Json.Decode.Decoder a -> Json.Decode.Decoder (ConnectionResultWrapper a)\nconnectionResultWrapperDecoder decoder = \n    Json.Decode.oneOf\n"
    ));
    assert!(text.contains(
        "        [ Json.Decode.map Err (Json.Decode.field \"MpdError\" (mpdErrorDecoder))\n        , Json.Decode.map Ok (Json.Decode.field \"MpdOk\" (decoder))\n        ]\n"
    ));
    assert!(text.ends_with("        ]\n\n\n"));
    assert_eq!(text.lines().count(), 12);
}
