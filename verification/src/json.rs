//! The JSON trees of `serde_json` and the dotted paths of `json_dotpath`.
//!
//! Both crates do their work unverified. This module gives each call that the
//! engine makes a contract and a name for what it returns.

use json_dotpath::DotPaths;
use serde_json::Value as SerdeValue;
use vstd::prelude::*;

verus! {

/// A JSON tree of `serde_json`, carried through without a look inside.
#[verifier::external_type_specification]
#[verifier::external_body]
pub struct ExJsonValue(SerdeValue);

/// The JSON tree that input and records are.
pub type JsonValue = SerdeValue;

/// `json_dotpath::Error`, carried through without a look inside.
#[verifier::external_type_specification]
#[verifier::external_body]
pub struct ExDotPathError(json_dotpath::Error);

/// What `serde_json::Value::as_str` returns: the text of a JSON string, and
/// `None` for a value of any other kind.
pub uninterp spec fn json_string(value: JsonValue) -> Option<Seq<char>>;

/// What `to_string` returns on a `serde_json::Value`: the compact JSON
/// text.
pub uninterp spec fn json_text(value: JsonValue) -> Seq<char>;

/// What `DotPaths::dot_get` returns on a tree for a path: `None` where it
/// fails, `Some(None)` where nothing is found, `Some(Some(v))` where `v` is.
pub uninterp spec fn dot_get_outcome(tree: JsonValue, path: Seq<char>) -> Option<
    Option<JsonValue>,
>;

/// What `DotPaths::dot_set` makes of a tree for a path and an optional text:
/// the new tree, or `None` where it fails.
pub uninterp spec fn dot_set_outcome(
    tree: JsonValue,
    path: Seq<char>,
    value: Option<Seq<char>>,
) -> Option<JsonValue>;

/// Calls `serde_json::Value::as_str` and copies the text.
///
/// Trusted: the result is `json_string` of the value.
#[verifier::external_body]
pub(crate) fn as_string(value: &JsonValue) -> (text: Option<String>)
    ensures
        text is Some <==> json_string(*value) is Some,
        text matches Some(s) ==> json_string(*value) == Some(s@),
{
    value.as_str().map(str::to_owned)
}

/// Calls `to_string` on a `serde_json::Value`, which writes compact JSON.
///
/// Trusted: the result is `json_text` of the value.
#[verifier::external_body]
pub(crate) fn to_text(value: &JsonValue) -> (text: String)
    ensures
        text@ == json_text(*value),
{
    value.to_string()
}

/// Builds `serde_json::Value::Object` over the map of `serde_json::Map::new`.
///
/// Trusted: the result is no JSON string, and its compact text is `{}`.
#[verifier::external_body]
pub(crate) fn empty_object() -> (value: JsonValue)
    ensures
        json_string(value) is None,
        json_text(value) == "{}"@,
{
    JsonValue::Object(serde_json::Map::new())
}

/// Calls `json_dotpath::DotPaths::dot_get` for a `serde_json::Value` on a
/// tree.
///
/// Trusted: the result is `dot_get_outcome` of the tree and the path, an
/// error standing for `None`.
#[verifier::external_body]
pub(crate) fn dot_get(tree: &JsonValue, path: &str) -> (found: Result<
    Option<JsonValue>,
    json_dotpath::Error,
>)
    ensures
        found is Ok <==> dot_get_outcome(*tree, path@) is Some,
        found matches Ok(v) ==> dot_get_outcome(*tree, path@) == Some(v),
{
    tree.dot_get::<JsonValue>(path)
}

/// The view of an optional text.
pub open spec fn text_view(text: Option<String>) -> Option<Seq<char>> {
    match text {
        Some(s) => Some(s@),
        None => None,
    }
}

/// Where the first `upto` characters of a path leave a reader that counts the
/// decimal digits behind a `>`: `None` while no `>` was met since the last dot,
/// else the number of digits met since the last `>`.
pub open spec fn digits_behind_mark(path: Seq<char>, upto: int) -> Option<nat>
    decreases upto,
{
    if upto <= 0 {
        None
    } else {
        let before = digits_behind_mark(path, upto - 1);
        let c = path[upto - 1];
        if c == '.' {
            None
        } else if c == '>' {
            Some(0)
        } else if '0' <= c <= '9' {
            match before {
                Some(n) => Some(n + 1),
                None => None,
            }
        } else {
            before
        }
    }
}

/// A path whose array positions `dot_set` can compute: no `>` is followed,
/// within its segment, by ten decimal digits or more.
///
/// `dot_set` reads `>n` as "insert behind position n" and adds one to `n`.
/// With at most nine digits `n + 1` fits every `usize`.
pub open spec fn positions_in_reach(path: Seq<char>) -> bool {
    forall|upto: int|
        0 <= upto <= path.len() ==> match #[trigger] digits_behind_mark(path, upto) {
            Some(n) => n <= 9,
            None => true,
        }
}

/// Tells whether `dot_set` can compute the array positions of a path.
pub fn positions_are_in_reach(path: &str) -> (ok: bool)
    ensures
        ok == positions_in_reach(path@),
{
    let len = path.unicode_len();
    let mut at: usize = 0;
    let mut marked = false;
    let mut digits: u8 = 0;
    while at < len
        invariant
            len == path@.len(),
            at <= len,
            digits <= 9,
            digits_behind_mark(path@, at as int) == (if marked {
                Some(digits as nat)
            } else {
                None
            }),
            forall|upto: int|
                0 <= upto <= at ==> match #[trigger] digits_behind_mark(path@, upto) {
                    Some(n) => n <= 9,
                    None => true,
                },
        decreases len - at,
    {
        let c = path.get_char(at);
        at = at + 1;
        if c == '.' {
            marked = false;
            digits = 0;
        } else if c == '>' {
            marked = true;
            digits = 0;
        } else if '0' <= c && c <= '9' {
            if marked {
                if digits == 9 {
                    assert(digits_behind_mark(path@, at as int) == Some(10nat));
                    return false;
                }
                digits = digits + 1;
            }
        }
    }
    true
}

/// Calls `json_dotpath::DotPaths::dot_set` on a tree, with an optional text
/// as the value to store.
///
/// Trusted: the call succeeds where `dot_set_outcome` names a tree, which is
/// the tree afterwards; where the call fails, the tree is as it was. Paths
/// with an array position out of reach are left out: there the sum inside
/// `dot_set` may overflow.
#[verifier::external_body]
pub(crate) fn dot_set(tree: &mut JsonValue, path: &str, value: Option<String>) -> (done: Result<
    (),
    json_dotpath::Error,
>)
    requires
        positions_in_reach(path@),
    ensures
        done is Ok <==> dot_set_outcome(*old(tree), path@, text_view(value)) is Some,
        done is Ok ==> dot_set_outcome(*old(tree), path@, text_view(value)) == Some(*final(tree)),
        done is Err ==> *final(tree) == *old(tree),
{
    tree.dot_set(path, value)
}

} // verus!
