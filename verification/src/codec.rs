//! The wire codec: the three message kinds that travel between the chat
//! screen and the server, and the chat message that a `message` frame
//! carries, with the rules that turn each into JSON text and back.

use crate::json::{
    json_parse, json_string_literal, member_value, parse_json, quote, text_list_of, text_of,
    Json, JsonModel, MemberModel,
};
use crate::text::same_text;
use vstd::prelude::*;

verus! {

/// The tag of a wire message.
#[derive(Clone, Copy, Debug, PartialEq, Eq, Structural)]
pub enum MsgTypes {
    Users,
    Register,
    Message,
}

/// Why a text was not accepted as a frame.
#[derive(Clone, Copy, Debug, PartialEq, Eq, Structural)]
pub enum DecodeError {
    /// The text is not JSON.
    Syntax,
    /// The JSON is not an object, or one of the fields that the codec reads
    /// holds a value of the wrong kind.
    Shape,
    /// A field that must be there is absent or `null`.
    MissingField,
    /// `messageType` holds a text that is none of the three tags.
    UnknownType,
}

/// A wire message: the roster, a registration, or a chat message in transit.
#[derive(Clone, Debug, PartialEq, Eq)]
pub enum WebSocketMessage {
    /// The display names of everyone online.
    Users(Vec<String>),
    /// The display name under which a client joins.
    Register(String),
    /// A chat payload: raw text on the way out, an encoded [`MessageData`]
    /// on the way in.
    Message(String),
}

/// The mathematical value of a [`WebSocketMessage`].
pub enum WireModel {
    Users(Seq<Seq<char>>),
    Register(Seq<char>),
    Message(Seq<char>),
}

/// A chat message as the server relays it.
#[derive(Clone, Debug, PartialEq, Eq)]
pub struct MessageData {
    pub from: String,
    pub message: String,
}

/// The mathematical value of a [`MessageData`].
pub struct MessageModel {
    pub from: Seq<char>,
    pub message: Seq<char>,
}

impl View for WebSocketMessage {
    type V = WireModel;

    open spec fn view(&self) -> WireModel {
        match self {
            WebSocketMessage::Users(names) => WireModel::Users(names.deep_view()),
            WebSocketMessage::Register(name) => WireModel::Register(name@),
            WebSocketMessage::Message(data) => WireModel::Message(data@),
        }
    }
}

impl View for MessageData {
    type V = MessageModel;

    open spec fn view(&self) -> MessageModel {
        MessageModel { from: self.from@, message: self.message@ }
    }
}

impl MsgTypes {
    /// The tag as it is written in a frame.
    pub open spec fn tag(self) -> Seq<char> {
        match self {
            MsgTypes::Users => "users"@,
            MsgTypes::Register => "register"@,
            MsgTypes::Message => "message"@,
        }
    }

    /// The name of the field that carries the payload of this kind.
    pub open spec fn field(self) -> Seq<char> {
        match self {
            MsgTypes::Users => "dataArray"@,
            MsgTypes::Register => "data"@,
            MsgTypes::Message => "data"@,
        }
    }

    /// The kind that a tag stands for.
    pub open spec fn of_tag(tag: Seq<char>) -> Option<MsgTypes> {
        if tag == "users"@ {
            Some(MsgTypes::Users)
        } else if tag == "register"@ {
            Some(MsgTypes::Register)
        } else if tag == "message"@ {
            Some(MsgTypes::Message)
        } else {
            None
        }
    }

    /// The tag as it is written in a frame.
    pub fn as_str(&self) -> (r: &'static str)
        ensures
            r@ == self.tag(),
    {
        match self {
            MsgTypes::Users => "users",
            MsgTypes::Register => "register",
            MsgTypes::Message => "message",
        }
    }

    /// The name of the field that carries the payload of this kind.
    pub fn field_name(&self) -> (r: &'static str)
        ensures
            r@ == self.field(),
    {
        match self {
            MsgTypes::Users => "dataArray",
            MsgTypes::Register => "data",
            MsgTypes::Message => "data",
        }
    }

    /// Reads a tag. The comparison is exact: case counts.
    pub fn from_tag(tag: &str) -> (r: Option<MsgTypes>)
        ensures
            r == Self::of_tag(tag@),
    {
        if same_text(tag, "users") {
            Some(MsgTypes::Users)
        } else if same_text(tag, "register") {
            Some(MsgTypes::Register)
        } else if same_text(tag, "message") {
            Some(MsgTypes::Message)
        } else {
            None
        }
    }
}

impl WireModel {
    /// The kind of the message.
    pub open spec fn message_type(self) -> MsgTypes {
        match self {
            WireModel::Users(_) => MsgTypes::Users,
            WireModel::Register(_) => MsgTypes::Register,
            WireModel::Message(_) => MsgTypes::Message,
        }
    }
}

// ---------------------------------------------------------------------------
// Reading
// ---------------------------------------------------------------------------

/// What an object holds under `key`, read as an optional string: absent and
/// `null` are both "not there".
pub open spec fn optional_text(members: Seq<MemberModel>, key: Seq<char>) -> Result<
    Option<Seq<char>>,
    DecodeError,
> {
    match member_value(members, key) {
        None => Ok(None),
        Some(JsonModel::Null) => Ok(None),
        Some(value) => match text_of(value) {
            Some(text) => Ok(Some(text)),
            None => Err(DecodeError::Shape),
        },
    }
}

/// What an object holds under `key`, read as an optional array of strings.
pub open spec fn optional_text_list(members: Seq<MemberModel>, key: Seq<char>) -> Result<
    Option<Seq<Seq<char>>>,
    DecodeError,
> {
    match member_value(members, key) {
        None => Ok(None),
        Some(JsonModel::Null) => Ok(None),
        Some(value) => match text_list_of(value) {
            Some(texts) => Ok(Some(texts)),
            None => Err(DecodeError::Shape),
        },
    }
}

/// What an object holds under `key`, where a string must be there.
pub open spec fn required_text(members: Seq<MemberModel>, key: Seq<char>) -> Result<
    Seq<char>,
    DecodeError,
> {
    match optional_text(members, key) {
        Err(e) => Err(e),
        Ok(None) => Err(DecodeError::MissingField),
        Ok(Some(text)) => Ok(text),
    }
}

/// The message that a tag and the two payload fields make: each kind takes
/// its own field and fails where that field is not there.
pub open spec fn assemble(
    message_type: MsgTypes,
    data: Option<Seq<char>>,
    data_array: Option<Seq<Seq<char>>>,
) -> Result<WireModel, DecodeError> {
    match message_type {
        MsgTypes::Users => match data_array {
            Some(names) => Ok(WireModel::Users(names)),
            None => Err(DecodeError::MissingField),
        },
        MsgTypes::Register => match data {
            Some(name) => Ok(WireModel::Register(name)),
            None => Err(DecodeError::MissingField),
        },
        MsgTypes::Message => match data {
            Some(payload) => Ok(WireModel::Message(payload)),
            None => Err(DecodeError::MissingField),
        },
    }
}

/// The wire message that a JSON value stands for. The value must be an
/// object; `messageType` must hold one of the three tags; `data` and
/// `dataArray`, where they are there, must be a string and an array of
/// strings; and the field of the tagged kind must be there.
pub open spec fn decode_value(value: JsonModel) -> Result<WireModel, DecodeError> {
    match value {
        JsonModel::Object(members) => match required_text(members, "messageType"@) {
            Err(e) => Err(e),
            Ok(tag) => match MsgTypes::of_tag(tag) {
                None => Err(DecodeError::UnknownType),
                Some(message_type) => match optional_text(members, "data"@) {
                    Err(e) => Err(e),
                    Ok(data) => match optional_text_list(members, "dataArray"@) {
                        Err(e) => Err(e),
                        Ok(data_array) => assemble(message_type, data, data_array),
                    },
                },
            },
        },
        _ => Err(DecodeError::Shape),
    }
}

/// The wire message that a text stands for.
pub open spec fn wire_decode(text: Seq<char>) -> Result<WireModel, DecodeError> {
    match json_parse(text) {
        None => Err(DecodeError::Syntax),
        Some(value) => decode_value(value),
    }
}

/// The chat message that a JSON value stands for: an object whose `from`
/// and `message` are strings.
pub open spec fn chat_value(value: JsonModel) -> Result<MessageModel, DecodeError> {
    match value {
        JsonModel::Object(members) => match required_text(members, "from"@) {
            Err(e) => Err(e),
            Ok(from) => match required_text(members, "message"@) {
                Err(e) => Err(e),
                Ok(message) => Ok(MessageModel { from, message }),
            },
        },
        _ => Err(DecodeError::Shape),
    }
}

/// The chat message that a text stands for.
pub open spec fn chat_decode(text: Seq<char>) -> Result<MessageModel, DecodeError> {
    match json_parse(text) {
        None => Err(DecodeError::Syntax),
        Some(value) => chat_value(value),
    }
}

/// A decoding outcome with the message taken by its view.
pub open spec fn wire_outcome(r: Result<WebSocketMessage, DecodeError>) -> Result<
    WireModel,
    DecodeError,
> {
    match r {
        Ok(message) => Ok(message@),
        Err(e) => Err(e),
    }
}

/// A decoding outcome with the chat message taken by its view.
pub open spec fn chat_outcome(r: Result<MessageData, DecodeError>) -> Result<
    MessageModel,
    DecodeError,
> {
    match r {
        Ok(message) => Ok(message@),
        Err(e) => Err(e),
    }
}

fn read_optional_text(object: &Json, key: &str) -> (r: Result<Option<String>, DecodeError>)
    requires
        object@ is Object,
    ensures
        match r {
            Ok(Some(text)) => optional_text(object@->Object_0, key@) == Ok::<
                Option<Seq<char>>,
                DecodeError,
            >(Some(text@)),
            Ok(None) => optional_text(object@->Object_0, key@) == Ok::<
                Option<Seq<char>>,
                DecodeError,
            >(None),
            Err(e) => optional_text(object@->Object_0, key@) == Err::<
                Option<Seq<char>>,
                DecodeError,
            >(e),
        },
{
    match object.member(key) {
        None => Ok(None),
        Some(value) => match value {
            Json::Null => Ok(None),
            _ => match value.as_text() {
                Some(text) => Ok(Some(text.to_owned())),
                None => Err(DecodeError::Shape),
            },
        },
    }
}

fn read_optional_text_list(object: &Json, key: &str) -> (r: Result<
    Option<Vec<String>>,
    DecodeError,
>)
    requires
        object@ is Object,
    ensures
        match r {
            Ok(Some(texts)) => optional_text_list(object@->Object_0, key@) == Ok::<
                Option<Seq<Seq<char>>>,
                DecodeError,
            >(Some(texts.deep_view())),
            Ok(None) => optional_text_list(object@->Object_0, key@) == Ok::<
                Option<Seq<Seq<char>>>,
                DecodeError,
            >(None),
            Err(e) => optional_text_list(object@->Object_0, key@) == Err::<
                Option<Seq<Seq<char>>>,
                DecodeError,
            >(e),
        },
{
    match object.member(key) {
        None => Ok(None),
        Some(value) => match value {
            Json::Null => Ok(None),
            _ => match value.as_text_list() {
                Some(texts) => Ok(Some(texts)),
                None => Err(DecodeError::Shape),
            },
        },
    }
}

fn read_required_text(object: &Json, key: &str) -> (r: Result<String, DecodeError>)
    requires
        object@ is Object,
    ensures
        match r {
            Ok(text) => required_text(object@->Object_0, key@) == Ok::<Seq<char>, DecodeError>(
                text@,
            ),
            Err(e) => required_text(object@->Object_0, key@) == Err::<Seq<char>, DecodeError>(e),
        },
{
    match read_optional_text(object, key) {
        Err(e) => Err(e),
        Ok(None) => Err(DecodeError::MissingField),
        Ok(Some(text)) => Ok(text),
    }
}

impl WebSocketMessage {
    /// The kind of the message.
    pub fn message_type(&self) -> (r: MsgTypes)
        ensures
            r == self@.message_type(),
    {
        match self {
            WebSocketMessage::Users(_) => MsgTypes::Users,
            WebSocketMessage::Register(_) => MsgTypes::Register,
            WebSocketMessage::Message(_) => MsgTypes::Message,
        }
    }

    /// Builds the message of a tag from the two payload fields of a frame.
    pub fn assemble(
        message_type: MsgTypes,
        data: Option<String>,
        data_array: Option<Vec<String>>,
    ) -> (r: Result<WebSocketMessage, DecodeError>)
        ensures
            wire_outcome(r) == assemble(
                message_type,
                match data {
                    Some(text) => Some(text@),
                    None => None,
                },
                match data_array {
                    Some(texts) => Some(texts.deep_view()),
                    None => None,
                },
            ),
    {
        match message_type {
            MsgTypes::Users => match data_array {
                Some(names) => Ok(WebSocketMessage::Users(names)),
                None => Err(DecodeError::MissingField),
            },
            MsgTypes::Register => match data {
                Some(name) => Ok(WebSocketMessage::Register(name)),
                None => Err(DecodeError::MissingField),
            },
            MsgTypes::Message => match data {
                Some(payload) => Ok(WebSocketMessage::Message(payload)),
                None => Err(DecodeError::MissingField),
            },
        }
    }

    /// Reads a wire message from a JSON value.
    pub fn from_json(value: &Json) -> (r: Result<WebSocketMessage, DecodeError>)
        ensures
            wire_outcome(r) == decode_value(value@),
    {
        match value {
            Json::Object(_) => {
                let tag = match read_required_text(value, "messageType") {
                    Ok(tag) => tag,
                    Err(e) => {
                        return Err(e);
                    },
                };
                let message_type = match MsgTypes::from_tag(tag.as_str()) {
                    Some(message_type) => message_type,
                    None => {
                        return Err(DecodeError::UnknownType);
                    },
                };
                let data = match read_optional_text(value, "data") {
                    Ok(data) => data,
                    Err(e) => {
                        return Err(e);
                    },
                };
                let data_array = match read_optional_text_list(value, "dataArray") {
                    Ok(data_array) => data_array,
                    Err(e) => {
                        return Err(e);
                    },
                };
                WebSocketMessage::assemble(message_type, data, data_array)
            },
            _ => Err(DecodeError::Shape),
        }
    }

    /// Decodes a frame.
    pub fn decode(text: &str) -> (r: Result<WebSocketMessage, DecodeError>)
        ensures
            wire_outcome(r) == wire_decode(text@),
    {
        match parse_json(text) {
            None => Err(DecodeError::Syntax),
            Some(value) => WebSocketMessage::from_json(&value),
        }
    }
}

impl MessageData {
    /// Reads a chat message from a JSON value.
    pub fn from_json(value: &Json) -> (r: Result<MessageData, DecodeError>)
        ensures
            chat_outcome(r) == chat_value(value@),
    {
        match value {
            Json::Object(_) => {
                let from = match read_required_text(value, "from") {
                    Ok(from) => from,
                    Err(e) => {
                        return Err(e);
                    },
                };
                let message = match read_required_text(value, "message") {
                    Ok(message) => message,
                    Err(e) => {
                        return Err(e);
                    },
                };
                Ok(MessageData { from, message })
            },
            _ => Err(DecodeError::Shape),
        }
    }

    /// Decodes the payload of a `message` frame.
    pub fn decode(text: &str) -> (r: Result<MessageData, DecodeError>)
        ensures
            chat_outcome(r) == chat_decode(text@),
    {
        match parse_json(text) {
            None => Err(DecodeError::Syntax),
            Some(value) => MessageData::from_json(&value),
        }
    }
}

// ---------------------------------------------------------------------------
// Writing
// ---------------------------------------------------------------------------

/// Texts in a row, with a comma between neighbours.
pub open spec fn comma_separated(items: Seq<Seq<char>>) -> Seq<char>
    decreases items.len(),
{
    if items.len() == 0 {
        Seq::empty()
    } else if items.len() == 1 {
        items[0]
    } else {
        comma_separated(items.drop_last()) + ","@ + items.last()
    }
}

/// The text of a JSON array whose items are already written.
pub open spec fn array_text(items: Seq<Seq<char>>) -> Seq<char> {
    "["@ + comma_separated(items) + "]"@
}

/// The text of a frame whose payload is already written: an object of
/// `messageType` and the payload field of that kind, in that order.
pub open spec fn frame_text(message_type: MsgTypes, payload: Seq<char>) -> Seq<char> {
    "{\"messageType\":\""@ + message_type.tag() + "\",\""@ + message_type.field() + "\":"@
        + payload + "}"@
}

/// The text of a chat message whose two strings are already written.
pub open spec fn chat_frame_text(from: Seq<char>, message: Seq<char>) -> Seq<char> {
    "{\"from\":"@ + from + ",\"message\":"@ + message + "}"@
}

/// The JSON string literal of each text.
pub open spec fn literals(texts: Seq<Seq<char>>) -> Seq<Seq<char>> {
    Seq::new(texts.len(), |i: int| json_string_literal(texts[i]))
}

/// The payload of a wire message as it is written into its frame.
pub open spec fn payload_text(message: WireModel) -> Seq<char> {
    match message {
        WireModel::Users(names) => array_text(literals(names)),
        WireModel::Register(name) => json_string_literal(name),
        WireModel::Message(data) => json_string_literal(data),
    }
}

/// The frame of a wire message.
pub open spec fn wire_text(message: WireModel) -> Seq<char> {
    frame_text(message.message_type(), payload_text(message))
}

/// The text of a chat message.
pub open spec fn chat_text(message: MessageModel) -> Seq<char> {
    chat_frame_text(json_string_literal(message.from), json_string_literal(message.message))
}

/// Writes a JSON array from items that are already JSON text.
pub fn array(items: &Vec<String>) -> (text: String)
    ensures
        text@ == array_text(items.deep_view()),
{
    let ghost all = items.deep_view();
    let mut text = "[".to_owned();
    let mut i: usize = 0;
    assert(all.subrange(0, 0).len() == 0);
    assert(text@ =~= "["@ + comma_separated(all.subrange(0, 0)));
    while i < items.len()
        invariant
            all == items.deep_view(),
            i <= items@.len(),
            text@ == "["@ + comma_separated(all.subrange(0, i as int)),
        decreases items@.len() - i,
    {
        let ghost before = all.subrange(0, i as int);
        let ghost after = all.subrange(0, i + 1);
        assert(after.drop_last() =~= before);
        assert(after.last() == items@[i as int]@);
        if i > 0 {
            text.append(",");
        }
        text.append(items[i].as_str());
        assert(text@ =~= "["@ + comma_separated(after));
        i += 1;
    }
    assert(all.subrange(0, i as int) =~= all);
    text.append("]");
    text
}

/// Writes a frame round a payload that is already JSON text.
pub fn frame(message_type: MsgTypes, payload: &str) -> (text: String)
    ensures
        text@ == frame_text(message_type, payload@),
{
    let mut text = "{\"messageType\":\"".to_owned();
    text.append(message_type.as_str());
    text.append("\",\"");
    text.append(message_type.field_name());
    text.append("\":");
    text.append(payload);
    text.append("}");
    text
}

/// Writes a chat message round its two strings, which are already JSON text.
pub fn chat_frame(from: &str, message: &str) -> (text: String)
    ensures
        text@ == chat_frame_text(from@, message@),
{
    let mut text = "{\"from\":".to_owned();
    text.append(from);
    text.append(",\"message\":");
    text.append(message);
    text.append("}");
    text
}

fn quote_all(texts: &Vec<String>) -> (r: Vec<String>)
    ensures
        r.deep_view() == literals(texts.deep_view()),
{
    let mut r: Vec<String> = Vec::new();
    let mut i: usize = 0;
    while i < texts.len()
        invariant
            i <= texts@.len(),
            r@.len() == i,
            forall|k: int| 0 <= k < i ==> (#[trigger] r@[k])@ == json_string_literal(texts@[k]@),
        decreases texts@.len() - i,
    {
        r.push(quote(texts[i].as_str()));
        i += 1;
    }
    assert(r.deep_view() =~= literals(texts.deep_view()));
    r
}

impl WebSocketMessage {
    /// Encodes the message as a frame.
    pub fn encode(&self) -> (text: String)
        ensures
            text@ == wire_text(self@),
    {
        match self {
            WebSocketMessage::Users(names) => {
                let items = quote_all(names);
                let payload = array(&items);
                frame(MsgTypes::Users, payload.as_str())
            },
            WebSocketMessage::Register(name) => {
                let payload = quote(name.as_str());
                frame(MsgTypes::Register, payload.as_str())
            },
            WebSocketMessage::Message(data) => {
                let payload = quote(data.as_str());
                frame(MsgTypes::Message, payload.as_str())
            },
        }
    }
}

impl MessageData {
    /// Encodes the chat message as the payload of a `message` frame.
    pub fn encode(&self) -> (text: String)
        ensures
            text@ == chat_text(self@),
    {
        let from = quote(self.from.as_str());
        let message = quote(self.message.as_str());
        chat_frame(from.as_str(), message.as_str())
    }
}

// ---------------------------------------------------------------------------
// Laws
// ---------------------------------------------------------------------------

/// The payload of a message as a JSON value.
pub open spec fn payload_value(message: WireModel) -> JsonModel {
    match message {
        WireModel::Users(names) => JsonModel::Array(
            Seq::new(names.len(), |i: int| JsonModel::Text(names[i])),
        ),
        WireModel::Register(name) => JsonModel::Text(name),
        WireModel::Message(data) => JsonModel::Text(data),
    }
}

/// The JSON object that the frame of a message spells out: `messageType`
/// with the tag, then the payload field with the payload.
pub open spec fn envelope(message: WireModel) -> JsonModel {
    JsonModel::Object(
        seq![
            MemberModel {
                key: "messageType"@,
                value: JsonModel::Text(message.message_type().tag()),
            },
            MemberModel { key: message.message_type().field(), value: payload_value(message) },
        ],
    )
}

/// The JSON object that the text of a chat message spells out.
pub open spec fn chat_envelope(message: MessageModel) -> JsonModel {
    JsonModel::Object(
        seq![
            MemberModel { key: "from"@, value: JsonModel::Text(message.from) },
            MemberModel { key: "message"@, value: JsonModel::Text(message.message) },
        ],
    )
}

/// Every kind is found again from its tag, and the three tags differ.
pub proof fn lemma_tag_round_trip(message_type: MsgTypes)
    ensures
        MsgTypes::of_tag(message_type.tag()) == Some(message_type),
{
    reveal_strlit("users");
    reveal_strlit("register");
    reveal_strlit("message");
    assert("users"@.len() == 5 && "register"@.len() == 8 && "message"@.len() == 7);
}

/// The object that a frame spells out decodes to the message that the frame
/// was written for: for a registration, to the same display name.
pub proof fn lemma_envelope_decodes(message: WireModel)
    ensures
        decode_value(envelope(message)) == Ok::<WireModel, DecodeError>(message),
{
    reveal_strlit("messageType");
    reveal_strlit("data");
    reveal_strlit("dataArray");
    assert("messageType"@.len() == 11 && "data"@.len() == 4 && "dataArray"@.len() == 9);
    lemma_tag_round_trip(message.message_type());
    let members = envelope(message)->Object_0;
    assert(members.len() == 2);
    assert(members.drop_last().len() == 1);
    assert(members.drop_last().last() == members[0]);
    assert(members.drop_last().drop_last().len() == 0);
    reveal_with_fuel(member_value, 3);
    assert(member_value(members, "messageType"@) == Some(members[0].value));
    match message {
        WireModel::Users(names) => {
            assert(member_value(members, "dataArray"@) == Some(members[1].value));
            assert(member_value(members, "data"@).is_none());
            assert(text_list_of(members[1].value) == Some(names)) by {
                let items = members[1].value->Array_0;
                assert(Seq::new(items.len(), |i: int| items[i]->Text_0) =~= names);
            }
        },
        WireModel::Register(name) => {
            assert(member_value(members, "data"@) == Some(members[1].value));
            assert(member_value(members, "dataArray"@).is_none());
        },
        WireModel::Message(data) => {
            assert(member_value(members, "data"@) == Some(members[1].value));
            assert(member_value(members, "dataArray"@).is_none());
        },
    }
}

/// The object that the text of a chat message spells out decodes to that
/// chat message.
pub proof fn lemma_chat_envelope_decodes(message: MessageModel)
    ensures
        chat_value(chat_envelope(message)) == Ok::<MessageModel, DecodeError>(message),
{
    reveal_strlit("from");
    reveal_strlit("message");
    assert("from"@.len() == 4 && "message"@.len() == 7);
    let members = chat_envelope(message)->Object_0;
    assert(members.drop_last().len() == 1);
    assert(members.drop_last().last() == members[0]);
    reveal_with_fuel(member_value, 3);
    assert(member_value(members, "from"@) == Some(members[0].value));
    assert(member_value(members, "message"@) == Some(members[1].value));
}

/// Encoding, then decoding: where the frame of a message is read as the
/// object that it spells out, decoding the frame gives the message back.
/// Whether a frame is read so is up to the JSON reader; nothing here says
/// that it is.
pub proof fn lemma_frame_decodes_where_read_as_written(message: WireModel)
    ensures
        json_parse(wire_text(message)) == Some(envelope(message)) ==> wire_decode(
            wire_text(message),
        ) == Ok::<WireModel, DecodeError>(message),
{
    lemma_envelope_decodes(message);
}

/// An object whose `messageType` is a text other than the three tags is
/// rejected, whatever else it holds.
pub proof fn lemma_unknown_type_is_rejected(members: Seq<MemberModel>, tag: Seq<char>)
    requires
        member_value(members, "messageType"@) == Some(JsonModel::Text(tag)),
        tag != "users"@,
        tag != "register"@,
        tag != "message"@,
    ensures
        decode_value(JsonModel::Object(members)) == Err::<WireModel, DecodeError>(
            DecodeError::UnknownType,
        ),
{
}

/// A text is decoded only where it is read as an object whose `messageType`
/// is one of the three tags: the tag of the message that comes out. No
/// other text gives a message.
pub proof fn lemma_decoded_type_is_known(text: Seq<char>)
    ensures
        wire_decode(text) matches Ok(message) ==> {
            &&& json_parse(text) matches Some(JsonModel::Object(members))
            &&& member_value(members, "messageType"@) == Some(
                JsonModel::Text(message.message_type().tag()),
            )
        },
{
}

} // verus!
