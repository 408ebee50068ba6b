//! JSON documents, as far as the pipeline reads them.

use vstd::prelude::*;
use vstd::string::*;
use crate::outcome::same_text;

verus! {

/// `serde_json::Value`, the parser's own document type. Nothing inside it is
/// visible here; `Json` holds what the library reads from one.
#[verifier::external_type_specification]
#[verifier::external_body]
pub struct ExValue(serde_json::Value);

/// A JSON value. Texts, truth values and the members of objects are kept;
/// of a number or an array only the kind is.
#[derive(Debug)]
pub enum Json {
    Null,
    Bool(bool),
    Number,
    Text(String),
    Array,
    Object(Vec<(String, Json)>),
}

/// The document that `serde_json::from_str` reads from a text, or `None`
/// where it rejects the text as not being JSON.
pub uninterp spec fn json_document(text: Seq<char>) -> Option<Json>;

/// What a `serde_json::Value` holds: its variant, the payload of a boolean or
/// a string, and the members of an object in the order in which the object
/// hands them out.
pub uninterp spec fn json_shape(value: serde_json::Value) -> Json;

/// Calls `serde_json::from_str` for a `serde_json::Value`. Not proved: that
/// the outcome depends on the text alone, so that what the value holds is
/// `json_document` of the text.
#[verifier::external_body]
fn read_value(text: &str) -> (r: Option<serde_json::Value>)
    ensures
        match r {
            Some(value) => json_document(text@) == Some(json_shape(value)),
            None => json_document(text@).is_none(),
        },
{
    match serde_json::from_str::<serde_json::Value>(text) {
        Ok(value) => Some(value),
        Err(_) => None,
    }
}

/// Copies a `serde_json::Value` into a `Json`, variant by variant; the
/// members of an object come from `serde_json::Map::iter`. Not proved: that
/// the copy holds what `json_shape` names.
#[verifier::external_body]
fn shape_of(value: &serde_json::Value) -> (r: Json)
    ensures
        r == json_shape(*value),
{
    match value {
        serde_json::Value::Null => Json::Null,
        serde_json::Value::Bool(b) => Json::Bool(*b),
        serde_json::Value::Number(_) => Json::Number,
        serde_json::Value::String(s) => Json::Text(s.clone()),
        serde_json::Value::Array(_) => Json::Array,
        serde_json::Value::Object(m) => Json::Object(
            m.iter().map(|(k, v)| (k.clone(), shape_of(v))).collect(),
        ),
    }
}

/// The value of the first member called `name`.
pub open spec fn member(fields: Seq<(String, Json)>, name: Seq<char>) -> Option<Json>
    decreases fields.len(),
{
    if fields.len() == 0 {
        None
    } else if fields[0].0@ == name {
        Some(fields[0].1)
    } else {
        member(fields.skip(1), name)
    }
}

impl Json {
    /// The member `name` of an object; nothing for any other value.
    pub open spec fn field(self, name: Seq<char>) -> Option<Json> {
        match self {
            Json::Object(fields) => member(fields@, name),
            _ => None,
        }
    }

    /// The member `name` of an object where it is a string.
    pub open spec fn text_field(self, name: Seq<char>) -> Option<Seq<char>> {
        match self.field(name) {
            Some(Json::Text(s)) => Some(s@),
            _ => None,
        }
    }

    /// The member `name` of an object where it is a boolean.
    pub open spec fn bool_field(self, name: Seq<char>) -> Option<bool> {
        match self.field(name) {
            Some(Json::Bool(b)) => Some(b),
            _ => None,
        }
    }

    /// Looks up the member `name` of an object.
    pub fn get(&self, name: &str) -> (r: Option<&Json>)
        ensures
            match r {
                Some(value) => self.field(name@) == Some(*value),
                None => self.field(name@).is_none(),
            },
    {
        match self {
            Json::Object(fields) => {
                let mut i: usize = 0;
                assert(fields@.skip(0) =~= fields@);
                while i < fields.len()
                    invariant
                        i <= fields.len(),
                        self.field(name@) == member(fields@, name@),
                        member(fields@, name@) == member(fields@.skip(i as int), name@),
                    decreases fields.len() - i,
                {
                    let entry = &fields[i];
                    assert(fields@.skip(i as int)[0] == fields@[i as int]);
                    assert(fields@.skip(i as int).skip(1) =~= fields@.skip(i + 1));
                    if same_text(entry.0.as_str(), name) {
                        assert(member(fields@.skip(i as int), name@) == Some(entry.1));
                        return Some(&entry.1);
                    }
                    assert(member(fields@.skip(i as int), name@) == member(
                        fields@.skip(i + 1),
                        name@,
                    ));
                    i += 1;
                }
                None
            },
            _ => None,
        }
    }

    /// The string member `name` of an object.
    pub fn get_text(&self, name: &str) -> (r: Option<String>)
        ensures
            match r {
                Some(s) => self.text_field(name@) == Some(s@),
                None => self.text_field(name@).is_none(),
            },
    {
        match self.get(name) {
            Some(Json::Text(s)) => Some(s.clone()),
            _ => None,
        }
    }

    /// The boolean member `name` of an object.
    pub fn get_bool(&self, name: &str) -> (r: Option<bool>)
        ensures
            r == self.bool_field(name@),
    {
        match self.get(name) {
            Some(Json::Bool(b)) => Some(*b),
            _ => None,
        }
    }
}

/// Parses a text as JSON.
pub fn parse_json(text: &str) -> (r: Option<Json>)
    ensures
        r == json_document(text@),
{
    match read_value(text) {
        Some(value) => Some(shape_of(&value)),
        None => None,
    }
}

} // verus!
