//! Values of JSON, built with `serde_json`.

use vstd::prelude::*;

verus! {

/// A value of JSON, as a reader of its text sees it. Only those values are told
/// apart that the records of a trace are made of.
#[verifier::ext_equal]
pub enum JsonTree {
    Bool(bool),
    Number(nat),
    Text(Seq<char>),
    List(Seq<Seq<char>>),
    Object(Map<Seq<char>, JsonTree>),
}

/// The JSON value of `serde_json`.
#[verifier::external_type_specification]
#[verifier::external_body]
pub struct ExJsonValue(serde_json::Value);

/// The members of a JSON object of `serde_json`.
#[verifier::external_type_specification]
#[verifier::external_body]
#[verifier::reject_recursive_types(K)]
#[verifier::reject_recursive_types(V)]
pub struct ExJsonMap<K, V>(serde_json::Map<K, V>);

/// What a JSON value holds.
pub uninterp spec fn json_tree(value: serde_json::Value) -> JsonTree;

/// What the members of a JSON object hold, each under its key.
pub uninterp spec fn json_members(object: serde_json::Map<String, serde_json::Value>) -> Map<
    Seq<char>,
    JsonTree,
>;

/// No members.
pub open spec fn no_members() -> Map<Seq<char>, JsonTree> {
    Map::empty()
}

/// `serde_json::Map::new` makes an object without members.
pub assume_specification[ serde_json::Map::<String, serde_json::Value>::new ]() -> (object:
    serde_json::Map<String, serde_json::Value>)
    ensures
        json_members(object) == no_members(),
;

/// `serde_json::Map::insert` puts a value under a key, keeps all other members,
/// and gives back the value that stood under that key before, if there was one.
pub assume_specification[ serde_json::Map::<String, serde_json::Value>::insert ](
    object: &mut serde_json::Map<String, serde_json::Value>,
    k: String,
    v: serde_json::Value,
) -> (former: Option<serde_json::Value>)
    ensures
        json_members(*final(object)) == json_members(*old(object)).insert(k@, json_tree(v)),
        former is Some == json_members(*old(object)).contains_key(k@),
        former matches Some(value) ==> json_tree(value) == json_members(*old(object))[k@],
;

/// `serde_json::Value::from` on a truth value gives that truth value in JSON.
#[verifier::external_body]
pub(crate) fn json_bool(value: bool) -> (json: serde_json::Value)
    ensures
        json_tree(json) == JsonTree::Bool(value),
{
    serde_json::Value::from(value)
}

/// `serde_json::Value::from` on an unsigned number gives that number in JSON.
#[verifier::external_body]
pub(crate) fn json_number(value: u64) -> (json: serde_json::Value)
    ensures
        json_tree(json) == JsonTree::Number(value as nat),
{
    serde_json::Value::from(value)
}

/// `serde_json::Value::from` on a text gives a JSON string with the same
/// characters.
#[verifier::external_body]
pub(crate) fn json_text(text: &str) -> (json: serde_json::Value)
    ensures
        json_tree(json) == JsonTree::Text(text@),
{
    serde_json::Value::from(text)
}

/// The characters of each text of a list.
pub open spec fn text_views(texts: Seq<String>) -> Seq<Seq<char>> {
    texts.map_values(|text: String| text@)
}

/// `serde_json::Value::from` on a list of texts gives a JSON array of strings, in
/// the same order and with the same characters.
#[verifier::external_body]
pub(crate) fn json_list(texts: Vec<String>) -> (json: serde_json::Value)
    ensures
        json_tree(json) == JsonTree::List(text_views(texts@)),
{
    serde_json::Value::from(texts)
}

/// `serde_json::Value::from` on the members of an object gives the JSON object
/// with these members.
#[verifier::external_body]
pub(crate) fn json_object(members: serde_json::Map<String, serde_json::Value>) -> (json:
    serde_json::Value)
    ensures
        json_tree(json) == JsonTree::Object(json_members(members)),
{
    serde_json::Value::from(members)
}

/// The members with one more, if there is a value for it.
pub open spec fn with_member(
    members: Map<Seq<char>, JsonTree>,
    key: Seq<char>,
    value: Option<JsonTree>,
) -> Map<Seq<char>, JsonTree> {
    match value {
        Some(tree) => members.insert(key, tree),
        None => members,
    }
}

/// Puts a value under a key of an object.
pub fn put_member(
    members: &mut serde_json::Map<String, serde_json::Value>,
    key: &str,
    value: serde_json::Value,
)
    ensures
        json_members(*final(members)) == with_member(
            json_members(*old(members)),
            key@,
            Some(json_tree(value)),
        ),
{
    let _ = members.insert(key.to_owned(), value);
}

} // verus!
