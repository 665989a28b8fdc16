//! A JSON document as plain data, and the reading of one from text.

use vstd::prelude::*;

verus! {

/// A JSON value. An object keeps its members as a list of keys with their
/// values; a document read from text has each key once, and a lookup takes
/// the first member with the key. A number keeps its decimal text.
#[derive(Debug, PartialEq, Eq)]
pub enum Json {
    Null,
    Bool(bool),
    Number(String),
    Text(String),
    Array(Vec<Json>),
    Object(Vec<Member>),
}

/// One member of a JSON object.
#[derive(Debug, PartialEq, Eq)]
pub struct Member {
    pub key: String,
    pub value: Json,
}

/// `serde_json::Value`, carried through unread.
#[verifier::external_type_specification]
#[verifier::external_body]
pub struct ExValue(serde_json::Value);

/// `serde_json::Error`, carried through unread.
#[verifier::external_type_specification]
#[verifier::external_body]
pub struct ExError(serde_json::Error);

/// The document that `serde_json::from_str` reads from `text` as a
/// `serde_json::Value`, rewritten as a [`Json`]; `None` where it rejects the
/// text.
pub uninterp spec fn json_document(text: Seq<char>) -> Option<Json>;

/// Rewrites a `serde_json::Value` as a [`Json`], variant by variant: a number
/// through its `Display`, an object's members in the order in which
/// `serde_json::Map::iter` yields them. Nothing is claimed of the result.
#[verifier::external_body]
fn json_of_value(value: &serde_json::Value) -> Json {
    match value {
        serde_json::Value::Null => Json::Null,
        serde_json::Value::Bool(b) => Json::Bool(*b),
        serde_json::Value::Number(n) => Json::Number(n.to_string()),
        serde_json::Value::String(s) => Json::Text(s.clone()),
        serde_json::Value::Array(items) => Json::Array(items.iter().map(json_of_value).collect()),
        serde_json::Value::Object(members) => Json::Object(
            members.iter().map(|(k, v)| Member { key: k.clone(), value: json_of_value(v) }).collect(),
        ),
    }
}

/// Calls `serde_json::from_str` for a `serde_json::Value`. The contract
/// claims that the outcome depends on the text alone: an accepted text gives
/// the document named by [`json_document`], a rejected one gives the parser's
/// error and has no document.
#[verifier::external_body]
fn read_document(text: &str) -> (r: Result<Json, serde_json::Error>)
    ensures
        match r {
            Ok(doc) => json_document(text@) == Some(doc),
            Err(_) => json_document(text@) is None,
        },
{
    match serde_json::from_str::<serde_json::Value>(text) {
        Ok(value) => Ok(json_of_value(&value)),
        Err(e) => Err(e),
    }
}

/// Renders a `serde_json::Error` through its `Display`. Nothing is claimed
/// of the text.
#[verifier::external_body]
fn error_text(e: &serde_json::Error) -> String {
    e.to_string()
}

/// Reads a JSON document from `text`. A rejected text gives the parser's
/// description of what is wrong with it.
pub fn parse(text: &str) -> (r: Result<Json, String>)
    ensures
        match r {
            Ok(doc) => json_document(text@) == Some(doc),
            Err(_) => json_document(text@) is None,
        },
{
    match read_document(text) {
        Ok(doc) => Ok(doc),
        Err(e) => Err(error_text(&e)),
    }
}

/// The value of the first member of `members`, at or after index `from`,
/// whose key is `key`.
pub open spec fn member_from(members: Seq<Member>, key: Seq<char>, from: int) -> Option<
    Json,
>
    decreases members.len() - from,
{
    if from < 0 || from >= members.len() {
        None
    } else if members[from].key@ == key {
        Some(members[from].value)
    } else {
        member_from(members, key, from + 1)
    }
}

impl Json {
    /// The member `key` of an object; `None` for a missing key and for a
    /// value that is no object.
    pub open spec fn spec_member(&self, key: Seq<char>) -> Option<Json> {
        match self {
            Json::Object(members) => member_from(members@, key, 0),
            _ => None,
        }
    }

    /// The items of an array; `None` for a value that is no array.
    pub open spec fn spec_items(&self) -> Option<Seq<Json>> {
        match self {
            Json::Array(items) => Some(items@),
            _ => None,
        }
    }

    /// The text of a string; `None` for a value that is no string.
    pub open spec fn spec_text(&self) -> Option<Seq<char>> {
        match self {
            Json::Text(t) => Some(t@),
            _ => None,
        }
    }

    /// The truth value of a boolean; `None` for a value that is no boolean.
    pub open spec fn spec_flag(&self) -> Option<bool> {
        match self {
            Json::Bool(b) => Some(*b),
            _ => None,
        }
    }

    /// The member `key` of an object.
    pub fn member(&self, key: &str) -> (r: Option<&Json>)
        ensures
            match r {
                Some(v) => self.spec_member(key@) == Some(*v),
                None => self.spec_member(key@) is None,
            },
    {
        match self {
            Json::Object(members) => {
                let wanted: String = key.to_owned();
                let mut i: usize = 0;
                while i < members.len()
                    invariant
                        i <= members@.len(),
                        wanted@ == key@,
                        self.spec_member(key@) == member_from(members@, key@, i as int),
                    decreases members@.len() - i,
                {
                    if members[i].key == wanted {
                        assert(member_from(members@, key@, i as int) == Some(
                            members@[i as int].value,
                        ));
                        return Some(&members[i].value);
                    }
                    i = i + 1;
                }
                None
            },
            _ => None,
        }
    }

    /// The items of an array.
    pub fn items(&self) -> (r: Option<&Vec<Json>>)
        ensures
            match r {
                Some(v) => self.spec_items() == Some(v@),
                None => self.spec_items() is None,
            },
    {
        match self {
            Json::Array(items) => Some(items),
            _ => None,
        }
    }

    /// The text of a string.
    pub fn text(&self) -> (r: Option<&str>)
        ensures
            match r {
                Some(t) => self.spec_text() == Some(t@),
                None => self.spec_text() is None,
            },
    {
        match self {
            Json::Text(t) => Some(t.as_str()),
            _ => None,
        }
    }

    /// The truth value of a boolean.
    pub fn flag(&self) -> (r: Option<bool>)
        ensures
            r == self.spec_flag(),
    {
        match self {
            Json::Bool(b) => Some(*b),
            _ => None,
        }
    }

    /// The text member `key` of an object: `None` where the value is no
    /// object, the key is missing or its value is no string.
    pub open spec fn spec_text_member(&self, key: Seq<char>) -> Option<Seq<char>> {
        match self.spec_member(key) {
            Some(v) => v.spec_text(),
            None => None,
        }
    }

    /// The text member `key` of an object.
    pub fn text_member(&self, key: &str) -> (r: Option<&str>)
        ensures
            match r {
                Some(t) => self.spec_text_member(key@) == Some(t@),
                None => self.spec_text_member(key@) is None,
            },
    {
        match self.member(key) {
            Some(v) => v.text(),
            None => None,
        }
    }
}

} // verus!
