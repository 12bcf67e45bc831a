//! What the library uses of `serde_json`. Nothing here is proved: each item says
//! what it takes for granted.

use vstd::prelude::*;

verus! {

/// A JSON number, as `serde_json` keeps it. The library hands numbers on
/// unread.
#[verifier::external_type_specification]
#[verifier::external_body]
pub struct ExNumber(serde_json::Number);

/// A JSON document, as `serde_json` keeps it.
#[verifier::external_type_specification]
#[verifier::external_body]
pub struct ExValue(serde_json::Value);

/// The members of a JSON object, as `serde_json` keeps them.
#[verifier::external_type_specification]
#[verifier::external_body]
#[verifier::reject_recursive_types(K)]
#[verifier::reject_recursive_types(V)]
pub struct ExMap<K, V>(serde_json::Map<K, V>);

/// Why a text is no JSON document.
#[verifier::external_type_specification]
#[verifier::external_body]
pub struct ExError(serde_json::Error);

/// What a `serde_json::Value` holds.
pub uninterp spec fn value_tree(value: serde_json::Value) -> crate::json::Tree;

/// What a `serde_json::Map` holds.
pub uninterp spec fn map_members(
    map: serde_json::Map<String, serde_json::Value>,
) -> Map<Seq<char>, crate::json::Tree>;

/// What the items of an array hold.
pub open spec fn values_view(values: Seq<serde_json::Value>) -> Seq<crate::json::Tree> {
    values.map_values(|v: serde_json::Value| value_tree(v))
}

/// What the entries of an object hold.
pub open spec fn entries_view(entries: Seq<(String, serde_json::Value)>) -> Seq<
    (Seq<char>, crate::json::Tree),
> {
    entries.map_values(|e: (String, serde_json::Value)| (e.0@, value_tree(e.1)))
}

/// One level of a JSON document: its kind, with what lies below still in
/// `serde_json`'s form.
pub enum Layer {
    Null,
    Bool(bool),
    Number(serde_json::Number),
    Str(String),
    Array(Vec<serde_json::Value>),
    Object(serde_json::Map<String, serde_json::Value>),
}

impl Layer {
    /// What the document holds.
    pub open spec fn tree(self) -> crate::json::Tree {
        match self {
            Layer::Null => crate::json::Tree::Null,
            Layer::Bool(b) => crate::json::Tree::Bool(b),
            Layer::Number(n) => crate::json::Tree::Number(n),
            Layer::Str(s) => crate::json::Tree::Str(s@),
            Layer::Array(values) => crate::json::Tree::Array(values_view(values@)),
            Layer::Object(map) => crate::json::Tree::Object(map_members(map)),
        }
    }
}

/// Makes a `serde_json::Value`, by the constructor of the kind's name. It holds
/// what it was made of.
#[verifier::external_body]
pub(crate) fn value_from_layer(layer: Layer) -> (value: serde_json::Value)
    ensures
        value_tree(value) == layer.tree(),
{
    match layer {
        Layer::Null => serde_json::Value::Null,
        Layer::Bool(b) => serde_json::Value::Bool(b),
        Layer::Number(n) => serde_json::Value::Number(n),
        Layer::Str(s) => serde_json::Value::String(s),
        Layer::Array(values) => serde_json::Value::Array(values),
        Layer::Object(map) => serde_json::Value::Object(map),
    }
}

/// Takes a `serde_json::Value` apart, by its variants. What comes out is what
/// it held.
#[verifier::external_body]
pub(crate) fn value_into_layer(value: serde_json::Value) -> (layer: Layer)
    ensures
        layer.tree() == value_tree(value),
{
    match value {
        serde_json::Value::Null => Layer::Null,
        serde_json::Value::Bool(b) => Layer::Bool(b),
        serde_json::Value::Number(n) => Layer::Number(n),
        serde_json::Value::String(s) => Layer::Str(s),
        serde_json::Value::Array(values) => Layer::Array(values),
        serde_json::Value::Object(map) => Layer::Object(map),
    }
}

/// An object without members.
pub open spec fn no_members() -> Map<Seq<char>, crate::json::Tree> {
    Map::empty()
}

/// Calls `serde_json::Map::new`. The map has no members.
#[verifier::external_body]
pub(crate) fn new_map() -> (map: serde_json::Map<String, serde_json::Value>)
    ensures
        map_members(map) == no_members(),
{
    serde_json::Map::new()
}

/// Calls `serde_json::Map::insert`. The key has the new value, whether or not
/// it had one, and nothing else changes. The old value is dropped.
#[verifier::external_body]
pub(crate) fn map_insert(
    map: &mut serde_json::Map<String, serde_json::Value>,
    key: String,
    value: serde_json::Value,
)
    ensures
        map_members(*final(map)) == map_members(*old(map)).insert(key@, value_tree(value)),
{
    let _ = map.insert(key, value);
}

/// Calls `serde_json::Map::into_iter`. Each member comes out once. The order
/// of the members is left unsaid.
#[verifier::external_body]
pub(crate) fn map_into_entries(map: serde_json::Map<String, serde_json::Value>) -> (entries: Vec<
    (String, serde_json::Value),
>)
    ensures
        crate::json::distinct_keys(entries_view(entries@)),
        crate::json::last_of_each(entries_view(entries@)) == map_members(map),
{
    map.into_iter().collect()
}

/// `serde_json::Number` copies itself: the copy is the same number.
pub assume_specification[ <serde_json::Number as Clone>::clone ](
    number: &serde_json::Number,
) -> (copy: serde_json::Number)
    ensures
        copy == *number,
;

/// The number that `serde_json` makes of an integer.
pub uninterp spec fn whole_number(value: i64) -> serde_json::Number;

/// Calls `serde_json::Number::from` on an `i64`.
#[verifier::external_body]
pub(crate) fn number_from_i64(value: i64) -> (number: serde_json::Number)
    ensures
        number == whole_number(value),
{
    serde_json::Number::from(value)
}

/// What `serde_json` reads in a text: a document, or why it is none.
pub uninterp spec fn json_parse(text: Seq<char>) -> Result<crate::json::Tree, Seq<char>>;

/// What a `serde_json::Error` says.
pub uninterp spec fn error_message(error: serde_json::Error) -> Seq<char>;

/// Calls `serde_json::from_str`, for a `serde_json::Value`. What it returns
/// depends on the text alone.
#[verifier::external_body]
pub(crate) fn parse_value(text: &str) -> (result: Result<serde_json::Value, serde_json::Error>)
    ensures
        match result {
            Ok(value) => json_parse(text@) == Ok::<crate::json::Tree, Seq<char>>(
                value_tree(value),
            ),
            Err(e) => json_parse(text@) == Err::<crate::json::Tree, Seq<char>>(error_message(e)),
        },
{
    serde_json::from_str(text)
}

/// Displays a `serde_json::Error`, by `ToString`.
#[verifier::external_body]
pub(crate) fn error_text(error: &serde_json::Error) -> (text: String)
    ensures
        text@ == error_message(*error),
{
    error.to_string()
}

/// The text that `serde_json` writes for a document.
pub uninterp spec fn json_text(tree: crate::json::Tree) -> Seq<char>;

/// Calls `serde_json::to_string`. Writing a `serde_json::Value` does not fail:
/// its keys are strings, and a string takes every write. The text stands on one
/// line: a newline in a string or in a key is written as an escape, and the
/// compact format puts none between.
#[verifier::external_body]
pub(crate) fn value_text(value: &serde_json::Value) -> (result: Result<
    String,
    serde_json::Error,
>)
    ensures
        match result {
            Ok(text) => text@ == json_text(value_tree(*value)) && !text@.contains('\n'),
            Err(_) => false,
        },
{
    serde_json::to_string(value)
}

/// The text that `serde_json` displays for a document.
pub uninterp spec fn json_display(tree: crate::json::Tree) -> Seq<char>;

/// Displays a `serde_json::Value`, by `ToString`.
#[verifier::external_body]
pub(crate) fn value_display(value: &serde_json::Value) -> (text: String)
    ensures
        text@ == json_display(value_tree(*value)),
{
    value.to_string()
}

/// A level of a document holds what lies below it: the items of an array, each in
/// its place, and the members of an object.
pub proof fn law_layer(layer: Layer)
    ensures
        layer is Null ==> layer.tree() is Null,
        layer matches Layer::Bool(b) ==> layer.tree() == crate::json::Tree::Bool(b),
        layer matches Layer::Number(n) ==> layer.tree() == crate::json::Tree::Number(n),
        layer matches Layer::Str(text) ==> layer.tree() == crate::json::Tree::Str(text@),
        layer matches Layer::Array(values) ==> (layer.tree() matches crate::json::Tree::Array(
            items,
        ) && {
            &&& items.len() == values@.len()
            &&& forall|i: int| 0 <= i < items.len() ==> #[trigger] items[i] == value_tree(values@[i])
        }),
        layer matches Layer::Object(map) ==> layer.tree() == crate::json::Tree::Object(
            map_members(map),
        ),
{
}

/// The entries of an object are taken as they are, each in its place.
pub proof fn law_entries(entries: Seq<(String, serde_json::Value)>)
    ensures
        entries_view(entries).len() == entries.len(),
        forall|i: int|
            0 <= i < entries.len() ==> #[trigger] entries_view(entries)[i] == (
                entries[i].0@,
                value_tree(entries[i].1),
            ),
{
}

} // verus!
