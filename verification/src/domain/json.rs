//! JSON documents as the engine holds them: as text that serde_json accepts, and,
//! where their parts are read, as a tree of plain values.

use vstd::prelude::*;
use crate::domain::text::{chars_of, same_chars};

verus! {

/// A JSON value of serde_json. Proofs see nothing inside it.
#[verifier::external_type_specification]
#[verifier::external_body]
pub struct ExJsonValue(serde_json::Value);

/// One member of a JSON object.
#[derive(Debug, PartialEq, Eq)]
pub struct Member {
    pub name: String,
    pub value: Json,
}

/// What a JSON value is.
#[derive(Debug, PartialEq, Eq)]
pub enum JsonNode {
    Null,
    Bool(bool),
    Number,
    Text(String),
    Array(Vec<Json>),
    Object(Vec<Member>),
}

/// A JSON value: what it is, and its text in serde_json's compact form.
#[derive(Debug, PartialEq, Eq)]
pub struct Json {
    pub compact: String,
    pub node: JsonNode,
}

/// The value that serde_json reads from the text, if it reads one.
pub uninterp spec fn json_value(text: Seq<char>) -> Option<serde_json::Value>;

/// What a value of serde_json holds, as a tree of plain values.
pub uninterp spec fn value_tree(v: serde_json::Value) -> Json;

/// The tree of the JSON value that the text denotes, if it denotes one.
pub open spec fn json_tree(text: Seq<char>) -> Option<Json> {
    match json_value(text) {
        Some(v) => Some(value_tree(v)),
        None => None,
    }
}

/// The text is one JSON value, as serde_json reads it.
pub open spec fn json_valid(text: Seq<char>) -> bool {
    json_value(text) is Some
}

/// `serde_json::from_str::<serde_json::Value>`: the value that the text denotes, or
/// serde_json's description of why it denotes none. The value is a function of the
/// text alone; nothing is claimed of the description.
#[verifier::external_body]
pub(crate) fn read_value(text: &str) -> (r: Result<serde_json::Value, String>)
    ensures
        match r {
            Ok(v) => json_value(text@) == Some(v),
            Err(_) => json_value(text@) is None,
        },
{
    serde_json::from_str::<serde_json::Value>(text).map_err(|e| e.to_string())
}

/// The variants of `serde_json::Value` and `<serde_json::Value as Display>::fmt`:
/// the value as a tree of plain values, each part with its compact text. The
/// members of an object come in the order in which serde_json walks them. The tree
/// is a function of the value alone.
#[verifier::external_body]
pub(crate) fn tree_of(v: &serde_json::Value) -> (j: Json)
    ensures
        j == value_tree(*v),
{
    let node = match v {
        serde_json::Value::Null => JsonNode::Null,
        serde_json::Value::Bool(b) => JsonNode::Bool(*b),
        serde_json::Value::Number(_) => JsonNode::Number,
        serde_json::Value::String(s) => JsonNode::Text(s.clone()),
        serde_json::Value::Array(a) => JsonNode::Array(a.iter().map(tree_of).collect()),
        serde_json::Value::Object(o) => JsonNode::Object(
            o.iter().map(|(k, x)| Member { name: k.clone(), value: tree_of(x) }).collect(),
        ),
    };
    Json { compact: v.to_string(), node }
}

/// Whether `text` is a JSON document.
pub fn is_json(text: &str) -> (ok: bool)
    ensures
        ok == json_valid(text@),
{
    read_value(text).is_ok()
}

/// The JSON value that `text` denotes, or why it denotes none.
pub fn parse_json(text: &str) -> (r: Result<Json, String>)
    ensures
        match r {
            Ok(j) => json_tree(text@) == Some(j),
            Err(_) => json_tree(text@) is None,
        },
{
    match read_value(text) {
        Ok(v) => Ok(tree_of(&v)),
        Err(why) => Err(why),
    }
}

/// The value of the first member named `key` among `members`, from `from` on.
pub open spec fn member_from(members: Seq<Member>, key: Seq<char>, from: int) -> Option<Json>
    decreases members.len() - from,
{
    if from < 0 || from >= members.len() {
        None
    } else if members[from].name@ == key {
        Some(members[from].value)
    } else {
        member_from(members, key, from + 1)
    }
}

impl Json {
    /// The value of the member named `key`, where this is an object that has one.
    pub open spec fn member(&self, key: Seq<char>) -> Option<Json> {
        match self.node {
            JsonNode::Object(members) => member_from(members@, key, 0),
            _ => None,
        }
    }

    /// The text of this value, where it is a string.
    pub open spec fn text(&self) -> Option<Seq<char>> {
        match self.node {
            JsonNode::Text(s) => Some(s@),
            _ => None,
        }
    }

    /// The text of the member named `key`, where this is an object that has one and
    /// the member is a string.
    pub open spec fn text_member(&self, key: Seq<char>) -> Option<Seq<char>> {
        match self.member(key) {
            Some(v) => v.text(),
            None => None,
        }
    }

    /// The value of the member named `key`, where this is an object that has one.
    pub fn get(&self, key: &str) -> (r: Option<&Json>)
        ensures
            match r {
                Some(v) => self.member(key@) == Some(*v),
                None => self.member(key@) is None,
            },
    {
        match &self.node {
            JsonNode::Object(members) => {
                let wanted = chars_of(key);
                let mut i: usize = 0;
                while i < members.len()
                    invariant
                        i <= members.len(),
                        wanted@ == key@,
                        self.node == JsonNode::Object(*members),
                        member_from(members@, key@, 0) == member_from(members@, key@, i as int),
                    decreases members.len() - i,
                {
                    let name = chars_of(members[i].name.as_str());
                    if same_chars(&name, &wanted) {
                        assert(member_from(members@, key@, i as int) == Some(
                            members@[i as int].value,
                        ));
                        return Some(&members[i].value);
                    }
                    i += 1;
                }
                None
            },
            _ => None,
        }
    }

    /// The text of this value, where it is a string.
    pub fn as_str(&self) -> (r: Option<&str>)
        ensures
            match r {
                Some(s) => self.text() == Some(s@),
                None => self.text() is None,
            },
    {
        match &self.node {
            JsonNode::Text(s) => Some(s.as_str()),
            _ => None,
        }
    }

    /// The text of the member named `key`, where there is one and it is a string.
    pub fn get_str(&self, key: &str) -> (r: Option<&str>)
        ensures
            match r {
                Some(s) => self.text_member(key@) == Some(s@),
                None => self.text_member(key@) is None,
            },
    {
        match self.get(key) {
            Some(v) => v.as_str(),
            None => None,
        }
    }
}

} // verus!
