//! JSON documents as plain data, and the two conversions between a document
//! and its text.

use crate::text::texts;
use vstd::prelude::*;
use vstd::string::StringExecFns;

verus! {

/// A JSON document.
///
/// Whole numbers that fit `i64` are `Int`; every other number is `Number`
/// and holds its decimal text. An object keeps its members in order; where a
/// key occurs twice, the last member counts.
#[derive(Debug, PartialEq)]
pub enum Json {
    Null,
    Bool(bool),
    Int(i64),
    Number(String),
    Str(String),
    Array(Vec<Json>),
    Object(Vec<(String, Json)>),
}

/// The mathematical value of a [`Json`] document.
pub enum JsonValue {
    Null,
    Bool(bool),
    Int(i64),
    Number(Seq<char>),
    Str(Seq<char>),
    Array(Seq<JsonValue>),
    Object(Seq<(Seq<char>, JsonValue)>),
}

/// The value of the last member of `fields` whose key is `key`.
pub open spec fn field_value(fields: Seq<(Seq<char>, JsonValue)>, key: Seq<char>) -> Option<
    JsonValue,
>
    decreases fields.len(),
{
    if fields.len() == 0 {
        None
    } else if fields.last().0 == key {
        Some(fields.last().1)
    } else {
        field_value(fields.drop_last(), key)
    }
}

impl JsonValue {
    /// The member `key` of an object; `None` for anything but an object.
    pub open spec fn field(self, key: Seq<char>) -> Option<JsonValue> {
        match self {
            JsonValue::Object(fields) => field_value(fields, key),
            _ => None,
        }
    }

    /// The text of a string; `None` for anything but a string.
    pub open spec fn as_text(self) -> Option<Seq<char>> {
        match self {
            JsonValue::Str(text) => Some(text),
            _ => None,
        }
    }

    /// The number of an `Int`; `None` for anything else.
    pub open spec fn as_int(self) -> Option<i64> {
        match self {
            JsonValue::Int(i) => Some(i),
            _ => None,
        }
    }

    /// The items of an array; `None` for anything but an array.
    pub open spec fn items(self) -> Option<Seq<JsonValue>> {
        match self {
            JsonValue::Array(items) => Some(items),
            _ => None,
        }
    }

    /// The texts of an array of strings; `None` for anything else.
    pub open spec fn text_items(self) -> Option<Seq<Seq<char>>> {
        match self {
            JsonValue::Array(items) => if forall|i: int|
                0 <= i < items.len() ==> (#[trigger] items[i]) is Str {
                Some(items.map_values(|item: JsonValue| item->Str_0))
            } else {
                None
            },
            _ => None,
        }
    }
}

/// The strings that a text lists: those of a JSON array of strings, and
/// none for any other text.
pub open spec fn text_list(text: Seq<char>) -> Seq<Seq<char>> {
    match json_parse(text) {
        Some(value) => match value.text_items() {
            Some(list) => list,
            None => Seq::empty(),
        },
        None => Seq::empty(),
    }
}

/// The values of the members of an object.
pub open spec fn fields_view(fields: Seq<(String, Json)>) -> Seq<(Seq<char>, JsonValue)> {
    Seq::new(fields.len(), |i: int| (fields[i].0@, fields[i].1@))
}

/// The values of the items of an array.
pub open spec fn items_view(items: Seq<Json>) -> Seq<JsonValue> {
    Seq::new(items.len(), |i: int| items[i]@)
}

/// An object holds the values of its members, an array those of its items.
pub proof fn lemma_view_of_members(json: Json)
    ensures
        json matches Json::Object(fields) ==> json@ == JsonValue::Object(fields_view(fields@)),
        json matches Json::Array(items) ==> json@ == JsonValue::Array(items_view(items@)),
{
    match json {
        Json::Object(fields) => {
            assert(json@->Object_0 =~= fields_view(fields@));
        },
        Json::Array(items) => {
            assert(json@->Array_0 =~= items_view(items@));
        },
        _ => {},
    }
}

/// The value of a document.
pub open spec fn json_view(j: Json) -> JsonValue
    decreases j,
{
    match j {
        Json::Null => JsonValue::Null,
        Json::Bool(b) => JsonValue::Bool(b),
        Json::Int(i) => JsonValue::Int(i),
        Json::Number(s) => JsonValue::Number(s@),
        Json::Str(s) => JsonValue::Str(s@),
        Json::Array(items) => JsonValue::Array(
            Seq::new(
                items@.len(),
                |i: int|
                    if 0 <= i < items@.len() {
                        json_view(items@[i])
                    } else {
                        JsonValue::Null
                    },
            ),
        ),
        Json::Object(fields) => JsonValue::Object(
            Seq::new(
                fields@.len(),
                |i: int|
                    if 0 <= i < fields@.len() {
                        (fields@[i].0@, json_view(fields@[i].1))
                    } else {
                        (Seq::empty(), JsonValue::Null)
                    },
            ),
        ),
    }
}

impl View for Json {
    type V = JsonValue;

    open spec fn view(&self) -> JsonValue {
        json_view(*self)
    }
}

impl Json {
    /// A copy of the document.
    pub fn duplicate(&self) -> (copy: Json)
        ensures
            copy@ == self@,
        decreases self,
    {
        match self {
            Json::Null => Json::Null,
            Json::Bool(b) => Json::Bool(*b),
            Json::Int(i) => Json::Int(*i),
            Json::Number(s) => Json::Number(s.clone()),
            Json::Str(s) => Json::Str(s.clone()),
            Json::Array(items) => {
                let mut copies: Vec<Json> = Vec::new();
                let mut i: usize = 0;
                while i < items.len()
                    invariant
                        i <= items.len(),
                        copies.len() == i,
                        forall|k: int| 0 <= k < i ==> copies@[k]@ == items@[k]@,
                        decreases_to!(self => items),
                    decreases items.len() - i,
                {
                    copies.push(items[i].duplicate());
                    i += 1;
                }
                let copy = Json::Array(copies);
                assert(copy@->Array_0 =~= self@->Array_0);
                copy
            },
            Json::Object(fields) => {
                let mut copies: Vec<(String, Json)> = Vec::new();
                let mut i: usize = 0;
                while i < fields.len()
                    invariant
                        i <= fields.len(),
                        copies.len() == i,
                        forall|k: int|
                            0 <= k < i ==> copies@[k].0@ == fields@[k].0@ && copies@[k].1@
                                == fields@[k].1@,
                        decreases_to!(self => fields),
                    decreases fields.len() - i,
                {
                    copies.push((fields[i].0.clone(), fields[i].1.duplicate()));
                    i += 1;
                }
                let copy = Json::Object(copies);
                assert(copy@->Object_0 =~= self@->Object_0);
                copy
            },
        }
    }
}

/// `serde_json::Value`, the form in which documents reach outside crates.
#[verifier::external_type_specification]
#[verifier::external_body]
pub struct ExValue(serde_json::Value);

/// The document that a text holds, as `serde_json::from_str` reads it; `None`
/// where the text is not JSON.
pub uninterp spec fn json_parse(text: Seq<char>) -> Option<JsonValue>;

/// The compact text of a document, as `serde_json::to_string` writes it.
pub uninterp spec fn json_text(value: JsonValue) -> Seq<char>;

/// Turns a `serde_json::Value` into a document, variant by variant. A number
/// that `serde_json::Number::as_i64` gives becomes `Int`, any other number
/// `Number` with the text that serde_json prints for it.
#[verifier::external_body]
fn json_of_value(value: serde_json::Value) -> Json {
    match value {
        serde_json::Value::Null => Json::Null,
        serde_json::Value::Bool(b) => Json::Bool(b),
        serde_json::Value::Number(n) => match n.as_i64() {
            Some(i) => Json::Int(i),
            None => Json::Number(n.to_string()),
        },
        serde_json::Value::String(s) => Json::Str(s),
        serde_json::Value::Array(a) => Json::Array(a.into_iter().map(json_of_value).collect()),
        serde_json::Value::Object(m) => Json::Object(
            m.into_iter().map(|(k, v)| (k, json_of_value(v))).collect(),
        ),
    }
}

/// Turns a document into a `serde_json::Value`, variant by variant. The text
/// of a `Number` is read by `serde_json::Number::from_str`; text that it
/// refuses becomes null. Nothing is claimed of the result.
#[verifier::external_body]
pub(crate) fn value_of_json(json: &Json) -> serde_json::Value {
    match json {
        Json::Null => serde_json::Value::Null,
        Json::Bool(b) => serde_json::Value::Bool(*b),
        Json::Int(i) => serde_json::Value::from(*i),
        Json::Number(s) => s.parse().map_or(serde_json::Value::Null, serde_json::Value::Number),
        Json::Str(s) => serde_json::Value::String(s.clone()),
        Json::Array(a) => serde_json::Value::Array(a.iter().map(value_of_json).collect()),
        Json::Object(m) => serde_json::Value::Object(
            m.iter().map(|(k, v)| (k.clone(), value_of_json(v))).collect(),
        ),
    }
}

/// Calls `serde_json::from_str`. The result is the document that the text
/// holds, or the error as serde_json words it, of which nothing is claimed.
#[verifier::external_body]
fn parse_text(text: &str) -> (parsed: Result<Json, String>)
    ensures
        parsed is Ok <==> json_parse(text@) is Some,
        parsed is Ok ==> parsed->Ok_0@ == json_parse(text@).unwrap(),
{
    match serde_json::from_str::<serde_json::Value>(text) {
        Ok(value) => Ok(json_of_value(value)),
        Err(error) => Err(format!("{}", error)),
    }
}

/// Calls `serde_json::to_string` on the document. Writing a
/// `serde_json::Value` into a string has no error case.
#[verifier::external_body]
fn write_text(json: &Json) -> (text: String)
    ensures
        text@ == json_text(json@),
{
    serde_json::to_string(&value_of_json(json)).unwrap_or_default()
}

/// The value of the last of `fields` whose key is `key`.
pub fn find_field<'a>(fields: &'a Vec<(String, Json)>, key: &str) -> (member: Option<&'a Json>)
    ensures
        match member {
            Some(json) => field_value(fields_view(fields@), key@) == Some(json@),
            None => field_value(fields_view(fields@), key@) is None,
        },
{
    let wanted = String::from_str(key);
    let ghost members = fields_view(fields@);
    let mut i: usize = fields.len();
    assert(members.take(i as int) =~= members);
    while i > 0
        invariant
            i <= fields@.len(),
            wanted@ == key@,
            members == fields_view(fields@),
            field_value(members, key@) == field_value(members.take(i as int), key@),
        decreases i,
    {
        i -= 1;
        let ghost upto = members.take(i as int + 1);
        assert(upto.last() == members[i as int]);
        assert(upto.drop_last() =~= members.take(i as int));
        if fields[i].0 == wanted {
            assert(field_value(upto, key@) == Some(fields@[i as int].1@));
            return Some(&fields[i].1);
        }
    }
    assert(members.take(0) =~= Seq::empty());
    None
}

impl Json {
    /// The member `key` of an object: the last one, where the key occurs
    /// more than once.
    pub fn get(&self, key: &str) -> (member: Option<&Json>)
        ensures
            match member {
                Some(json) => self@.field(key@) == Some(json@),
                None => self@.field(key@) is None,
            },
    {
        match self {
            Json::Object(fields) => {
                proof {
                    lemma_view_of_members(*self);
                }
                find_field(fields, key)
            },
            _ => None,
        }
    }

    /// The text of a string.
    pub fn as_str(&self) -> (text: Option<&String>)
        ensures
            match text {
                Some(t) => self@.as_text() == Some(t@),
                None => self@.as_text() is None,
            },
    {
        match self {
            Json::Str(text) => Some(text),
            _ => None,
        }
    }

    /// The number of an `Int`.
    pub fn as_i64(&self) -> (number: Option<i64>)
        ensures
            number == self@.as_int(),
    {
        match self {
            Json::Int(i) => Some(*i),
            _ => None,
        }
    }

    /// The items of an array.
    pub fn as_array(&self) -> (items: Option<&Vec<Json>>)
        ensures
            match items {
                Some(list) => {
                    &&& self@ is Array
                    &&& list@.len() == self@->Array_0.len()
                    &&& forall|i: int| 0 <= i < list@.len() ==> (#[trigger] list@[i])@ == self@->Array_0[i]
                },
                None => !(self@ is Array),
            },
    {
        match self {
            Json::Array(items) => Some(items),
            _ => None,
        }
    }

    /// The strings of an array of strings.
    pub fn as_string_list(&self) -> (list: Option<Vec<String>>)
        ensures
            match list {
                Some(l) => self@.text_items() == Some(texts(l@)),
                None => self@.text_items() is None,
            },
    {
        match self {
            Json::Array(items) => {
                let ghost values = self@->Array_0;
                let mut list: Vec<String> = Vec::new();
                let mut i: usize = 0;
                while i < items.len()
                    invariant
                        i <= items@.len(),
                        self@ == JsonValue::Array(values),
                        values.len() == items@.len(),
                        forall|j: int| 0 <= j < items@.len() ==> (#[trigger] values[j]) == items@[j]@,
                        list@.len() == i,
                        forall|j: int| 0 <= j < i ==> (#[trigger] values[j]) is Str,
                        forall|j: int| 0 <= j < i ==> (#[trigger] list@[j])@ == values[j]->Str_0,
                    decreases items@.len() - i,
                {
                    match &items[i] {
                        Json::Str(text) => {
                            list.push(text.clone());
                        },
                        _ => {
                            assert(!(values[i as int] is Str));
                            return None;
                        },
                    }
                    i += 1;
                }
                assert(texts(list@) =~= values.map_values(|item: JsonValue| item->Str_0));
                Some(list)
            },
            _ => None,
        }
    }

    /// Reads a document from its text.
    pub fn parse(text: &str) -> (parsed: Option<Json>)
        ensures
            parsed is Some <==> json_parse(text@) is Some,
            parsed is Some ==> parsed.unwrap()@ == json_parse(text@).unwrap(),
    {
        match parse_text(text) {
            Ok(json) => Some(json),
            Err(_) => None,
        }
    }

    /// Reads a document from its text, or says why the text holds none.
    pub fn parse_or_error(text: &str) -> (parsed: Result<Json, String>)
        ensures
            parsed is Ok <==> json_parse(text@) is Some,
            parsed is Ok ==> parsed->Ok_0@ == json_parse(text@).unwrap(),
    {
        parse_text(text)
    }

    /// The compact text of the document.
    pub fn to_text(&self) -> (text: String)
        ensures
            text@ == json_text(self@),
    {
        write_text(self)
    }
}

/// The strings that a text lists: those of a JSON array of strings, and
/// none for any other text.
pub fn parse_string_list(text: &str) -> (list: Vec<String>)
    ensures
        texts(list@) == text_list(text@),
{
    let empty: Vec<String> = Vec::new();
    assert(texts(empty@) =~= Seq::empty());
    match Json::parse(text) {
        Some(json) => match json.as_string_list() {
            Some(list) => list,
            None => empty,
        },
        None => empty,
    }
}

impl Clone for Json {
    fn clone(&self) -> (copy: Json)
        ensures
            copy@ == self@,
    {
        self.duplicate()
    }
}

} // verus!
