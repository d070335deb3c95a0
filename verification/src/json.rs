//! The boundary to the JSON parser and the JSONPath evaluator.
//!
//! Parsed documents are carried as opaque values. What the two outside crates
//! compute is named here, and the wrappers below tie each call to its name;
//! none of these contracts is proved.

use vstd::prelude::*;

verus! {

/// A parsed JSON document or one value inside it.
#[verifier::external_type_specification]
#[verifier::external_body]
pub struct ExValue(serde_json::Value);

/// Why `serde_json` refused a text.
#[verifier::external_type_specification]
#[verifier::external_body]
pub struct ExJsonError(serde_json::Error);

/// Why `jsonpath_lib` refused an expression.
#[verifier::external_type_specification]
#[verifier::external_body]
pub struct ExJsonPathError(jsonpath_lib::JsonPathError);

/// The document that `serde_json::from_str` reads from `text`, or `None`
/// where it reports an error.
pub uninterp spec fn json_document(text: Seq<char>) -> Option<serde_json::Value>;

/// The values that `jsonpath_lib::select` picks out of `doc` for the
/// expression `path`, in the order it returns them, or `None` where it
/// reports an error.
pub uninterp spec fn path_selection(doc: serde_json::Value, path: Seq<char>) -> Option<
    Seq<serde_json::Value>,
>;

/// The text inside `value` where it is a JSON string, as
/// `serde_json::Value::as_str` gives it; `None` for every other kind of value.
pub uninterp spec fn string_content(value: serde_json::Value) -> Option<Seq<char>>;

/// What `{:?}` writes for the list of selected values, through the `Debug`
/// impls of `Vec` and of `serde_json::Value`.
pub uninterp spec fn debug_text(values: Seq<serde_json::Value>) -> Seq<char>;

/// The values behind a list of references into a document.
pub open spec fn values_of(found: Seq<&serde_json::Value>) -> Seq<serde_json::Value> {
    found.map_values(|v: &serde_json::Value| *v)
}

/// Calls `serde_json::from_str` for a `Value`. Claimed: the outcome depends on
/// the text alone, and is the document named by `json_document`.
#[verifier::external_body]
pub(crate) fn parse_document(text: &str) -> (r: Result<serde_json::Value, serde_json::Error>)
    ensures
        match r {
            Ok(doc) => json_document(text@) == Some(doc),
            Err(_) => json_document(text@).is_none(),
        },
{
    serde_json::from_str(text)
}

/// Calls `jsonpath_lib::select`. Claimed: the outcome depends on the document
/// and the expression alone, and is the sequence named by `path_selection`.
///
/// The evaluator does not return on every expression. It reaches
/// `step_by(0)` on a slice with step zero. Inside a filter it meets
/// `unimplemented!` on a list of keys, a union or a slice, an `unwrap` of
/// `None` on a number that is not finite, and `panic!` where its stack of
/// terms is short: after an index or a wildcard in a bracket, after a
/// bracket behind two dots, and where a path from the root is compared with
/// a literal on its right. It recurses once for each token that opens a
/// level of nesting. `requires` leaves these out.
#[verifier::external_body]
pub(crate) fn select_values<'a>(doc: &'a serde_json::Value, path: &str) -> (r: Result<
    Vec<&'a serde_json::Value>,
    jsonpath_lib::JsonPathError,
>)
    requires
        crate::path::path_supported(path@),
    ensures
        match r {
            Ok(found) => path_selection(*doc, path@) == Some(values_of(found@)),
            Err(_) => path_selection(*doc, path@).is_none(),
        },
{
    jsonpath_lib::select(doc, path)
}

/// Calls `serde_json::Value::as_str`. Claimed: the result is the text named
/// by `string_content`.
#[verifier::external_body]
pub(crate) fn value_as_str<'a>(value: &'a serde_json::Value) -> (r: Option<&'a str>)
    ensures
        match r {
            Some(s) => string_content(*value) == Some(s@),
            None => string_content(*value).is_none(),
        },
{
    value.as_str()
}

/// Formats the list with `{:?}`. Claimed: the text depends on the values
/// alone, and is the one named by `debug_text`; for no values at all it is
/// `[]`, as `Debug` writes every empty list.
#[verifier::external_body]
pub(crate) fn render_values(found: &Vec<&serde_json::Value>) -> (r: String)
    ensures
        r@ == debug_text(values_of(found@)),
        found@.len() == 0 ==> r@ == seq!['[', ']'],
{
    format!("{:?}", found)
}

} // verus!
