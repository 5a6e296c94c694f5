//! JSON values as the codec reads them, and the calls into `serde_json`:
//! one that reads a text as a value, one that writes a string as a literal.

use crate::text::same_text;
use vstd::prelude::*;

verus! {

/// One `key: value` entry of a JSON object.
#[derive(Debug, PartialEq, Eq)]
pub struct Member {
    pub key: String,
    pub value: Json,
}

/// A JSON value.
#[derive(Debug, PartialEq, Eq)]
pub enum Json {
    Null,
    Bool(bool),
    /// A number, kept as the digits it prints as.
    Number(String),
    Text(String),
    Array(Vec<Json>),
    Object(Vec<Member>),
}

/// The mathematical value of a [`Member`].
pub struct MemberModel {
    pub key: Seq<char>,
    pub value: JsonModel,
}

/// The mathematical value of a [`Json`].
pub enum JsonModel {
    Null,
    Bool(bool),
    Number(Seq<char>),
    Text(Seq<char>),
    Array(Seq<JsonModel>),
    Object(Seq<MemberModel>),
}

impl View for Json {
    type V = JsonModel;

    open spec fn view(&self) -> JsonModel
        decreases self,
    {
        match self {
            Json::Null => JsonModel::Null,
            Json::Bool(b) => JsonModel::Bool(*b),
            Json::Number(digits) => JsonModel::Number(digits@),
            Json::Text(text) => JsonModel::Text(text@),
            Json::Array(items) => JsonModel::Array(
                Seq::new(
                    items@.len(),
                    |i: int|
                        if 0 <= i < items@.len() {
                            items@[i].view()
                        } else {
                            JsonModel::Null
                        },
                ),
            ),
            Json::Object(members) => JsonModel::Object(
                Seq::new(
                    members@.len(),
                    |i: int|
                        if 0 <= i < members@.len() {
                            MemberModel { key: members@[i].key@, value: members@[i].value.view() }
                        } else {
                            MemberModel { key: Seq::empty(), value: JsonModel::Null }
                        },
                ),
            ),
        }
    }
}

/// `serde_json::Value`: what the reader hands out. It is carried from
/// [`read_value`] to [`tree_of`] and nothing else looks into it.
#[verifier::external_type_specification]
#[verifier::external_body]
pub struct ExValue(serde_json::Value);

/// What `serde_json` reads from a text: the value, or `None` where the text
/// is not one JSON document.
pub uninterp spec fn json_parse(text: Seq<char>) -> Option<JsonModel>;

/// What a `serde_json::Value` holds.
pub uninterp spec fn value_model(value: serde_json::Value) -> JsonModel;

/// `serde_json::from_str` at the type `serde_json::Value`. The contract
/// claims that whether a value comes out, and which, depends on the text
/// alone: `json_parse` names it. The reader's error, a position and a
/// message, is dropped.
#[verifier::external_body]
fn read_value(text: &str) -> (r: Option<serde_json::Value>)
    ensures
        match r {
            Some(value) => json_parse(text@) == Some(value_model(value)),
            None => json_parse(text@).is_none(),
        },
{
    match serde_json::from_str::<serde_json::Value>(text) {
        Ok(value) => Some(value),
        Err(_) => None,
    }
}

/// Moves a `serde_json::Value` into a [`Json`], variant by variant and
/// member by member, in the order in which `serde_json` hands the members
/// out. A number is kept as the text that `serde_json::Number` prints. The
/// contract claims that the tree is what the value held: `value_model`
/// names it.
#[verifier::external_body]
fn tree_of(value: serde_json::Value) -> (tree: Json)
    ensures
        tree@ == value_model(value),
{
    match value {
        serde_json::Value::Null => Json::Null,
        serde_json::Value::Bool(b) => Json::Bool(b),
        serde_json::Value::Number(n) => Json::Number(n.to_string()),
        serde_json::Value::String(s) => Json::Text(s),
        serde_json::Value::Array(items) => Json::Array(items.into_iter().map(tree_of).collect()),
        serde_json::Value::Object(members) => Json::Object(
            members.into_iter().map(|(key, value)| Member { key, value: tree_of(value) }).collect(),
        ),
    }
}

/// Reads a text as JSON.
pub fn parse_json(text: &str) -> (r: Option<Json>)
    ensures
        match r {
            Some(tree) => json_parse(text@) == Some(tree@),
            None => json_parse(text@).is_none(),
        },
{
    match read_value(text) {
        Some(value) => Some(tree_of(value)),
        None => None,
    }
}

/// The JSON string literal that `serde_json` writes for a text: the text
/// between double quotes, with the escapes that JSON asks for.
pub uninterp spec fn json_string_literal(text: Seq<char>) -> Seq<char>;

/// `serde_json::to_string` at the type `str`. Writing a `str` into memory
/// has no failing step, so the contract claims a result for every text;
/// `json_string_literal` names it.
#[verifier::external_body]
pub(crate) fn quote(text: &str) -> (literal: String)
    ensures
        literal@ == json_string_literal(text@),
{
    match serde_json::to_string(text) {
        Ok(literal) => literal,
        Err(_) => String::new(),
    }
}

/// The value that an object's members give to `key`: that of the last member
/// of that key, as a JSON object with a repeated key is read.
pub open spec fn member_value(members: Seq<MemberModel>, key: Seq<char>) -> Option<JsonModel>
    decreases members.len(),
{
    if members.len() == 0 {
        None
    } else if members.last().key == key {
        Some(members.last().value)
    } else {
        member_value(members.drop_last(), key)
    }
}

/// The text of a JSON string; `None` for any other value.
pub open spec fn text_of(value: JsonModel) -> Option<Seq<char>> {
    match value {
        JsonModel::Text(text) => Some(text),
        _ => None,
    }
}

/// The texts of a JSON array whose items are all strings; `None` for any
/// other value.
pub open spec fn text_list_of(value: JsonModel) -> Option<Seq<Seq<char>>> {
    match value {
        JsonModel::Array(items) => if forall|i: int| 0 <= i < items.len() ==> items[i] is Text {
            Some(Seq::new(items.len(), |i: int| items[i]->Text_0))
        } else {
            None
        },
        _ => None,
    }
}

impl Json {
    /// The value of the member `key`, where `self` is an object that has one.
    pub fn member(&self, key: &str) -> (r: Option<&Json>)
        ensures
            match self@ {
                JsonModel::Object(members) => match r {
                    Some(value) => member_value(members, key@) == Some(value@),
                    None => member_value(members, key@).is_none(),
                },
                _ => r.is_none(),
            },
    {
        match self {
            Json::Object(members) => {
                let ghost all = self@->Object_0;
                let mut i: usize = members.len();
                assert(all.subrange(0, i as int) =~= all);
                while i > 0
                    invariant
                        self@ == JsonModel::Object(all),
                        i <= members@.len(),
                        all.len() == members@.len(),
                        forall|k: int|
                            0 <= k < members@.len() ==> all[k].key == (#[trigger] members@[k]).key@
                                && all[k].value == members@[k].value@,
                        member_value(all, key@) == member_value(all.subrange(0, i as int), key@),
                    decreases i,
                {
                    i -= 1;
                    let ghost head = all.subrange(0, i + 1);
                    assert(head.last() == all[i as int]);
                    assert(head.drop_last() =~= all.subrange(0, i as int));
                    if same_text(members[i].key.as_str(), key) {
                        assert(member_value(head, key@) == Some(all[i as int].value));
                        return Some(&members[i].value);
                    }
                }
                assert(all.subrange(0, 0).len() == 0);
                None
            },
            _ => None,
        }
    }

    /// The text, where `self` is a string.
    pub fn as_text(&self) -> (r: Option<&str>)
        ensures
            match r {
                Some(text) => text_of(self@) == Some(text@),
                None => text_of(self@).is_none(),
            },
    {
        match self {
            Json::Text(text) => Some(text.as_str()),
            _ => None,
        }
    }

    /// The texts, where `self` is an array of strings.
    pub fn as_text_list(&self) -> (r: Option<Vec<String>>)
        ensures
            match r {
                Some(texts) => text_list_of(self@) == Some(texts.deep_view()),
                None => text_list_of(self@).is_none(),
            },
    {
        match self {
            Json::Array(items) => {
                let ghost all = self@->Array_0;
                let mut texts: Vec<String> = Vec::new();
                let mut i: usize = 0;
                while i < items.len()
                    invariant
                        self@ == JsonModel::Array(all),
                        i <= items@.len(),
                        all.len() == items@.len(),
                        forall|k: int| 0 <= k < items@.len() ==> all[k] == (#[trigger] items@[k])@,
                        texts@.len() == i,
                        forall|k: int|
                            0 <= k < i ==> (#[trigger] all[k]) == JsonModel::Text(texts@[k]@),
                    decreases items@.len() - i,
                {
                    match &items[i] {
                        Json::Text(text) => {
                            assert(all[i as int] == items@[i as int]@);
                            texts.push(text.clone());
                        },
                        _ => {
                            assert(all[i as int] == items@[i as int]@);
                            assert(!(all[i as int] is Text));
                            return None;
                        },
                    }
                    i += 1;
                }
                assert(texts.deep_view() =~= Seq::new(all.len(), |k: int| all[k]->Text_0));
                Some(texts)
            },
            _ => None,
        }
    }
}

} // verus!
