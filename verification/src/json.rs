//! JSON text of flat objects whose members are all text, written and read by
//! `serde_json`.

use crate::text::text_view;
use vstd::prelude::*;

verus! {

/// `serde_json::Map`, the members of a JSON object by name.
#[verifier::external_type_specification]
#[verifier::external_body]
#[verifier::reject_recursive_types(K)]
#[verifier::reject_recursive_types(V)]
pub struct ExJsonMap<K, V>(serde_json::Map<K, V>);

/// `serde_json::Value`, any JSON value.
#[verifier::external_type_specification]
#[verifier::external_body]
pub struct ExJsonValue(serde_json::Value);

/// The text members that an object holds, by name.
pub uninterp spec fn json_members(object: serde_json::Map<String, serde_json::Value>) -> Map<Seq<char>, Seq<char>>;

/// The JSON text that `serde_json` writes for the object with the given
/// text members.
pub uninterp spec fn json_object_text(members: Map<Seq<char>, Seq<char>>) -> Seq<char>;

/// The text value of the member `name` in the JSON `text`, where `text` is
/// a JSON object with such a member.
pub uninterp spec fn json_text_member(text: Seq<char>, name: Seq<char>) -> Option<Seq<char>>;

/// The members of an object that has none.
pub open spec fn no_members() -> Map<Seq<char>, Seq<char>> {
    Map::empty()
}

/// `serde_json::Map::new`: an object without members.
#[verifier::external_body]
pub(crate) fn json_object_new() -> (object: serde_json::Map<String, serde_json::Value>)
    ensures
        json_members(object) == no_members(),
{
    serde_json::Map::new()
}

/// `serde_json::Map::insert` of a `Value::String`: the object has the member
/// `name` with the text `value`, in place of an earlier one of that name.
#[verifier::external_body]
pub(crate) fn json_object_put(
    object: &mut serde_json::Map<String, serde_json::Value>,
    name: &str,
    value: &str,
)
    ensures
        json_members(*final(object)) == json_members(*old(object)).insert(name@, value@),
{
    object.insert(name.to_string(), serde_json::Value::String(value.to_string()));
}

/// `serde_json::to_string` on an object of text members. The text it gives
/// is a function of the members, and read back with `serde_json` it has
/// every one of them under its name.
#[verifier::external_body]
pub(crate) fn json_object_write(object: &serde_json::Map<String, serde_json::Value>) -> (text:
    String)
    ensures
        text@ == json_object_text(json_members(*object)),
        forall|name: Seq<char>|
            json_members(*object).contains_key(name) ==> #[trigger] json_text_member(text@, name)
                == Some(json_members(*object)[name]),
{
    serde_json::to_string(object).unwrap_or_default()
}

/// `serde_json::from_str` to a `serde_json::Value`, then `Value::get` and
/// `Value::as_str`: the text value of the member `name`, or `None` where
/// `text` is no JSON, no object, has no such member, or has one that is no
/// string.
#[verifier::external_body]
pub(crate) fn read_json_member(text: &str, name: &str) -> (value: Option<String>)
    ensures
        text_view(value) == json_text_member(text@, name@),
{
    let parsed: serde_json::Value = serde_json::from_str(text).ok()?;
    parsed.get(name)?.as_str().map(|v| v.to_string())
}

} // verus!
