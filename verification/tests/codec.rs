use yewchat::codec::{
    array, chat_frame, frame, DecodeError, MessageData, MsgTypes, WebSocketMessage,
};
use yewchat::json::{Json, Member};

fn names(list: &[&str]) -> Vec<String> {
    list.iter().map(|s| s.to_string()).collect()
}

fn text(s: &str) -> Json {
    Json::Text(s.to_string())
}

fn object(members: Vec<(&str, Json)>) -> Json {
    Json::Object(
        members.into_iter().map(|(key, value)| Member { key: key.to_string(), value }).collect(),
    )
}

// --- writing -----------------------------------------------------------------

#[test]
fn register_frame_is_written_as_the_protocol_gives_it() {
    let frame = WebSocketMessage::Register("alice".to_string()).encode();
    assert_eq!(frame, "{\"messageType\":\"register\",\"data\":\"alice\"}");
}

#[test]
fn message_frame_is_written_as_the_protocol_gives_it() {
    let frame = WebSocketMessage::Message("hello there".to_string()).encode();
    assert_eq!(frame, "{\"messageType\":\"message\",\"data\":\"hello there\"}");
}

#[test]
fn users_frame_is_written_as_the_protocol_gives_it() {
    let frame = WebSocketMessage::Users(names(&["a", "b", "c"])).encode();
    assert_eq!(frame, "{\"messageType\":\"users\",\"dataArray\":[\"a\",\"b\",\"c\"]}");
}

#[test]
fn users_frame_of_nobody_and_of_one() {
    assert_eq!(
        WebSocketMessage::Users(vec![]).encode(),
        "{\"messageType\":\"users\",\"dataArray\":[]}"
    );
    assert_eq!(
        WebSocketMessage::Users(names(&["solo"])).encode(),
        "{\"messageType\":\"users\",\"dataArray\":[\"solo\"]}"
    );
}

#[test]
fn encode_escapes_what_json_must_escape() {
    let frame = WebSocketMessage::Register("a\"b\\c\nd\te\u{1}".to_string()).encode();
    assert_eq!(
        frame,
        "{\"messageType\":\"register\",\"data\":\"a\\\"b\\\\c\\nd\\te\\u0001\"}"
    );
}

#[test]
fn encode_leaves_other_chars_as_they_are() {
    let frame = WebSocketMessage::Message("héllo 🔥 </script>".to_string()).encode();
    assert_eq!(frame, "{\"messageType\":\"message\",\"data\":\"héllo 🔥 </script>\"}");
}

#[test]
fn encode_of_an_empty_text_is_an_empty_literal() {
    assert_eq!(
        WebSocketMessage::Message(String::new()).encode(),
        "{\"messageType\":\"message\",\"data\":\"\"}"
    );
}

#[test]
fn chat_message_is_written_with_both_fields() {
    let chat = MessageData { from: "bob".to_string(), message: "say \"hi\"".to_string() };
    assert_eq!(chat.encode(), "{\"from\":\"bob\",\"message\":\"say \\\"hi\\\"\"}");
}

#[test]
fn frame_puts_the_payload_under_the_field_of_the_kind() {
    assert_eq!(frame(MsgTypes::Users, "[]"), "{\"messageType\":\"users\",\"dataArray\":[]}");
    assert_eq!(frame(MsgTypes::Register, "\"x\""), "{\"messageType\":\"register\",\"data\":\"x\"}");
    assert_eq!(frame(MsgTypes::Message, "\"x\""), "{\"messageType\":\"message\",\"data\":\"x\"}");
}

#[test]
fn array_separates_items_by_commas() {
    assert_eq!(array(&vec![]), "[]");
    assert_eq!(array(&names(&["1"])), "[1]");
    assert_eq!(array(&names(&["1", "2", "3"])), "[1,2,3]");
    assert_eq!(array(&names(&["", ""])), "[,]");
}

#[test]
fn chat_frame_puts_both_literals_in_place() {
    assert_eq!(chat_frame("\"a\"", "\"b\""), "{\"from\":\"a\",\"message\":\"b\"}");
}

#[test]
fn tags_are_lower_case_words() {
    assert_eq!(MsgTypes::Users.as_str(), "users");
    assert_eq!(MsgTypes::Register.as_str(), "register");
    assert_eq!(MsgTypes::Message.as_str(), "message");
    assert_eq!(MsgTypes::Users.field_name(), "dataArray");
    assert_eq!(MsgTypes::Register.field_name(), "data");
    assert_eq!(MsgTypes::Message.field_name(), "data");
}

#[test]
fn from_tag_is_exact() {
    assert_eq!(MsgTypes::from_tag("users"), Some(MsgTypes::Users));
    assert_eq!(MsgTypes::from_tag("register"), Some(MsgTypes::Register));
    assert_eq!(MsgTypes::from_tag("message"), Some(MsgTypes::Message));
    assert_eq!(MsgTypes::from_tag("Users"), None);
    assert_eq!(MsgTypes::from_tag("MESSAGE"), None);
    assert_eq!(MsgTypes::from_tag("message "), None);
    assert_eq!(MsgTypes::from_tag(""), None);
    assert_eq!(MsgTypes::from_tag("ping"), None);
}

#[test]
fn message_type_names_the_kind() {
    assert_eq!(WebSocketMessage::Users(vec![]).message_type(), MsgTypes::Users);
    assert_eq!(WebSocketMessage::Register(String::new()).message_type(), MsgTypes::Register);
    assert_eq!(WebSocketMessage::Message(String::new()).message_type(), MsgTypes::Message);
}

// --- reading -----------------------------------------------------------------

#[test]
fn decode_reads_the_inbound_frames_of_the_protocol() {
    assert_eq!(
        WebSocketMessage::decode("{\"messageType\":\"users\",\"dataArray\":[\"name1\",\"name2\"]}"),
        Ok(WebSocketMessage::Users(names(&["name1", "name2"])))
    );
    assert_eq!(
        WebSocketMessage::decode(
            "{\"messageType\":\"message\",\"data\":\"{\\\"from\\\":\\\"a\\\",\\\"message\\\":\\\"b\\\"}\"}"
        ),
        Ok(WebSocketMessage::Message("{\"from\":\"a\",\"message\":\"b\"}".to_string()))
    );
    assert_eq!(
        WebSocketMessage::decode("{\"messageType\":\"register\",\"data\":\"carol\"}"),
        Ok(WebSocketMessage::Register("carol".to_string()))
    );
}

#[test]
fn decode_takes_fields_in_any_order_with_spaces_and_strangers() {
    let frame = " { \"extra\" : 1 , \"data\" : \"dave\" ,\n \"messageType\" : \"register\" } ";
    assert_eq!(WebSocketMessage::decode(frame), Ok(WebSocketMessage::Register("dave".to_string())));
}

#[test]
fn decode_takes_null_for_the_field_of_the_other_kind() {
    assert_eq!(
        WebSocketMessage::decode("{\"messageType\":\"register\",\"dataArray\":null,\"data\":\"bob\"}"),
        Ok(WebSocketMessage::Register("bob".to_string()))
    );
    assert_eq!(
        WebSocketMessage::decode("{\"messageType\":\"users\",\"dataArray\":[\"a\"],\"data\":null}"),
        Ok(WebSocketMessage::Users(names(&["a"])))
    );
}

#[test]
fn decode_ignores_a_well_formed_field_of_the_other_kind() {
    assert_eq!(
        WebSocketMessage::decode("{\"messageType\":\"users\",\"dataArray\":[\"a\"],\"data\":\"x\"}"),
        Ok(WebSocketMessage::Users(names(&["a"])))
    );
    assert_eq!(
        WebSocketMessage::decode("{\"messageType\":\"message\",\"dataArray\":[\"a\"],\"data\":\"x\"}"),
        Ok(WebSocketMessage::Message("x".to_string()))
    );
}

#[test]
fn decode_keeps_repeated_names_and_their_order() {
    assert_eq!(
        WebSocketMessage::decode("{\"messageType\":\"users\",\"dataArray\":[\"b\",\"a\",\"b\"]}"),
        Ok(WebSocketMessage::Users(names(&["b", "a", "b"])))
    );
}

#[test]
fn decode_fails_on_what_is_not_json() {
    assert_eq!(WebSocketMessage::decode(""), Err(DecodeError::Syntax));
    assert_eq!(WebSocketMessage::decode("not json"), Err(DecodeError::Syntax));
    assert_eq!(
        WebSocketMessage::decode("{\"messageType\":\"register\",\"data\":\"x\""),
        Err(DecodeError::Syntax)
    );
}

#[test]
fn decode_fails_on_json_of_another_shape() {
    assert_eq!(WebSocketMessage::decode("[]"), Err(DecodeError::Shape));
    assert_eq!(WebSocketMessage::decode("\"register\""), Err(DecodeError::Shape));
    assert_eq!(WebSocketMessage::decode("null"), Err(DecodeError::Shape));
    assert_eq!(WebSocketMessage::decode("[\"users\",[\"a\"],null]"), Err(DecodeError::Shape));
    assert_eq!(WebSocketMessage::decode("{\"messageType\":7}"), Err(DecodeError::Shape));
    assert_eq!(
        WebSocketMessage::decode("{\"messageType\":\"register\",\"data\":5}"),
        Err(DecodeError::Shape)
    );
    assert_eq!(
        WebSocketMessage::decode("{\"messageType\":\"users\",\"dataArray\":\"a\"}"),
        Err(DecodeError::Shape)
    );
    assert_eq!(
        WebSocketMessage::decode("{\"messageType\":\"users\",\"dataArray\":[\"a\",1]}"),
        Err(DecodeError::Shape)
    );
    assert_eq!(
        WebSocketMessage::decode("{\"messageType\":\"users\",\"dataArray\":[\"a\"],\"data\":[]}"),
        Err(DecodeError::Shape)
    );
}

#[test]
fn decode_fails_where_a_field_is_missing() {
    assert_eq!(WebSocketMessage::decode("{}"), Err(DecodeError::MissingField));
    assert_eq!(WebSocketMessage::decode("{\"data\":\"x\"}"), Err(DecodeError::MissingField));
    assert_eq!(
        WebSocketMessage::decode("{\"messageType\":null,\"data\":\"x\"}"),
        Err(DecodeError::MissingField)
    );
    assert_eq!(
        WebSocketMessage::decode("{\"messageType\":\"users\"}"),
        Err(DecodeError::MissingField)
    );
    assert_eq!(
        WebSocketMessage::decode("{\"messageType\":\"users\",\"data\":\"a\"}"),
        Err(DecodeError::MissingField)
    );
    assert_eq!(
        WebSocketMessage::decode("{\"messageType\":\"register\"}"),
        Err(DecodeError::MissingField)
    );
    assert_eq!(
        WebSocketMessage::decode("{\"messageType\":\"message\",\"data\":null}"),
        Err(DecodeError::MissingField)
    );
    assert_eq!(
        WebSocketMessage::decode("{\"messageType\":\"message\",\"dataArray\":[\"a\"]}"),
        Err(DecodeError::MissingField)
    );
}

#[test]
fn decode_fails_on_a_tag_outside_the_three() {
    for tag in ["ping", "Users", "REGISTER", "messages", "", " message", "user"] {
        let frame = format!(
            "{{\"messageType\":\"{}\",\"data\":\"x\",\"dataArray\":[\"a\"]}}",
            tag
        );
        assert_eq!(WebSocketMessage::decode(&frame), Err(DecodeError::UnknownType), "{}", tag);
    }
}

#[test]
fn register_round_trip_gives_the_name_back() {
    let samples = [
        "alice",
        "a",
        " padded ",
        "two words",
        "quote\"inside",
        "back\\slash",
        "line\nbreak\r\ttab",
        "\u{0}\u{1f}\u{7f}",
        "ünïcödé",
        "日本語",
        "🔥🔥",
        "{\"messageType\":\"users\"}",
        "null",
        "",
    ];
    for name in samples {
        let frame = WebSocketMessage::Register(name.to_string()).encode();
        assert_eq!(
            WebSocketMessage::decode(&frame),
            Ok(WebSocketMessage::Register(name.to_string())),
            "{:?}",
            name
        );
    }
}

#[test]
fn every_kind_round_trips() {
    let samples = vec![
        WebSocketMessage::Users(vec![]),
        WebSocketMessage::Users(names(&["a", "b", "a", "", "x\"y"])),
        WebSocketMessage::Register("r".to_string()),
        WebSocketMessage::Message("m,\n\"".to_string()),
    ];
    for message in samples {
        assert_eq!(WebSocketMessage::decode(&message.encode()), Ok(message));
    }
}

#[test]
fn chat_message_round_trips_inside_a_frame() {
    let chat = MessageData { from: "eve \"e\"".to_string(), message: "look: cat.gif\n".to_string() };
    let frame = WebSocketMessage::Message(chat.encode()).encode();
    match WebSocketMessage::decode(&frame) {
        Ok(WebSocketMessage::Message(payload)) => {
            assert_eq!(MessageData::decode(&payload), Ok(chat));
        }
        other => panic!("unexpected: {:?}", other),
    }
}

#[test]
fn from_json_reads_an_object_built_by_hand() {
    let value = object(vec![("messageType", text("register")), ("data", text("zed"))]);
    assert_eq!(WebSocketMessage::from_json(&value), Ok(WebSocketMessage::Register("zed".to_string())));
    let value = object(vec![
        ("messageType", text("users")),
        ("dataArray", Json::Array(vec![text("a"), text("b")])),
    ]);
    assert_eq!(WebSocketMessage::from_json(&value), Ok(WebSocketMessage::Users(names(&["a", "b"]))));
}

#[test]
fn from_json_reports_each_failure() {
    assert_eq!(WebSocketMessage::from_json(&Json::Null), Err(DecodeError::Shape));
    assert_eq!(WebSocketMessage::from_json(&object(vec![])), Err(DecodeError::MissingField));
    assert_eq!(
        WebSocketMessage::from_json(&object(vec![("messageType", text("nope")), ("data", text("x"))])),
        Err(DecodeError::UnknownType)
    );
    assert_eq!(
        WebSocketMessage::from_json(&object(vec![
            ("messageType", text("message")),
            ("data", Json::Bool(true)),
        ])),
        Err(DecodeError::Shape)
    );
}

#[test]
fn from_json_checks_the_tag_before_the_payload() {
    let value = object(vec![("messageType", text("nope")), ("data", Json::Bool(true))]);
    assert_eq!(WebSocketMessage::from_json(&value), Err(DecodeError::UnknownType));
    let value = object(vec![("messageType", Json::Bool(true)), ("data", Json::Bool(true))]);
    assert_eq!(WebSocketMessage::from_json(&value), Err(DecodeError::Shape));
}

#[test]
fn assemble_takes_the_field_of_the_kind() {
    assert_eq!(
        WebSocketMessage::assemble(MsgTypes::Users, Some("x".to_string()), Some(names(&["a"]))),
        Ok(WebSocketMessage::Users(names(&["a"])))
    );
    assert_eq!(
        WebSocketMessage::assemble(MsgTypes::Register, Some("x".to_string()), Some(names(&["a"]))),
        Ok(WebSocketMessage::Register("x".to_string()))
    );
    assert_eq!(
        WebSocketMessage::assemble(MsgTypes::Message, Some("x".to_string()), None),
        Ok(WebSocketMessage::Message("x".to_string()))
    );
    assert_eq!(
        WebSocketMessage::assemble(MsgTypes::Users, Some("x".to_string()), None),
        Err(DecodeError::MissingField)
    );
    assert_eq!(
        WebSocketMessage::assemble(MsgTypes::Register, None, Some(vec![])),
        Err(DecodeError::MissingField)
    );
    assert_eq!(
        WebSocketMessage::assemble(MsgTypes::Message, None, None),
        Err(DecodeError::MissingField)
    );
}

#[test]
fn chat_message_decodes_from_its_two_fields() {
    assert_eq!(
        MessageData::decode("{\"from\":\"ann\",\"message\":\"hi\"}"),
        Ok(MessageData { from: "ann".to_string(), message: "hi".to_string() })
    );
    assert_eq!(
        MessageData::decode("{\"message\":\"hi\",\"time\":12,\"from\":\"ann\"}"),
        Ok(MessageData { from: "ann".to_string(), message: "hi".to_string() })
    );
}

#[test]
fn chat_message_fails_like_a_frame() {
    assert_eq!(MessageData::decode("hi"), Err(DecodeError::Syntax));
    assert_eq!(MessageData::decode("\"hi\""), Err(DecodeError::Shape));
    assert_eq!(MessageData::decode("{\"from\":\"ann\"}"), Err(DecodeError::MissingField));
    assert_eq!(MessageData::decode("{\"message\":\"hi\"}"), Err(DecodeError::MissingField));
    assert_eq!(
        MessageData::decode("{\"from\":null,\"message\":\"hi\"}"),
        Err(DecodeError::MissingField)
    );
    assert_eq!(
        MessageData::decode("{\"from\":\"ann\",\"message\":3}"),
        Err(DecodeError::Shape)
    );
    assert_eq!(
        MessageData::decode("{\"from\":[\"ann\"],\"message\":\"hi\"}"),
        Err(DecodeError::Shape)
    );
}

#[test]
fn chat_message_from_json_reads_an_object_built_by_hand() {
    let value = object(vec![("from", text("ann")), ("message", text("hi"))]);
    assert_eq!(
        MessageData::from_json(&value),
        Ok(MessageData { from: "ann".to_string(), message: "hi".to_string() })
    );
    assert_eq!(MessageData::from_json(&Json::Array(vec![])), Err(DecodeError::Shape));
}
