//! JSON values as `serde_json` holds them, and what the formatting rules read of them.

use serde_json::{Number, Value};
use vstd::prelude::*;
use vstd::utf8::encode_utf8;

verus! {

/// A JSON value of `serde_json`, opaque to the verifier.
#[verifier::external_type_specification]
#[verifier::external_body]
pub struct ExValue(serde_json::Value);

/// A JSON number of `serde_json`, opaque to the verifier.
#[verifier::external_type_specification]
#[verifier::external_body]
pub struct ExNumber(serde_json::Number);

/// What the argument display reads of one JSON value.
pub enum ArgShape {
    /// JSON `null`.
    Null,
    /// A JSON boolean.
    Bool(bool),
    /// A JSON number, by its canonical text.
    Number(Seq<char>),
    /// A JSON string, by its characters.
    Text(Seq<char>),
    /// An array or an object.
    Composite,
}

/// One argument value taken out of a JSON object.
pub enum ArgValue {
    /// JSON `null`.
    Null,
    /// A JSON boolean.
    Bool(bool),
    /// A JSON number.
    Number(Number),
    /// A JSON string.
    Text(String),
    /// An array or an object; its contents are never displayed.
    Composite,
}

/// The text that `serde_json` writes for the number `n`.
pub uninterp spec fn number_text(n: Number) -> Seq<char>;

/// The compact JSON text that `serde_json` writes for the value `v`.
pub uninterp spec fn json_text(v: Value) -> Seq<char>;

/// The entries of `v` in the order in which its map hands them out, if `v` is an object.
pub uninterp spec fn object_entries(v: Value) -> Option<Seq<(Seq<char>, ArgShape)>>;

impl View for ArgValue {
    type V = ArgShape;

    open spec fn view(&self) -> ArgShape {
        match self {
            ArgValue::Null => ArgShape::Null,
            ArgValue::Bool(b) => ArgShape::Bool(*b),
            ArgValue::Number(n) => ArgShape::Number(number_text(*n)),
            ArgValue::Text(s) => ArgShape::Text(s@),
            ArgValue::Composite => ArgShape::Composite,
        }
    }
}

/// The keys and shapes of a list of entries.
pub open spec fn shapes(entries: Seq<(String, ArgValue)>) -> Seq<(Seq<char>, ArgShape)> {
    Seq::new(entries.len(), |i: int| (entries[i].0@, entries[i].1@))
}

/// Whether the byte string `a` comes strictly before `b` in lexicographic order.
pub open spec fn bytes_before(a: Seq<u8>, b: Seq<u8>) -> bool
    decreases a.len(),
{
    if b.len() == 0 {
        false
    } else if a.len() == 0 {
        true
    } else if a[0] != b[0] {
        a[0] < b[0]
    } else {
        bytes_before(a.drop_first(), b.drop_first())
    }
}

/// Whether each key comes strictly before the next one, compared as UTF-8 bytes.
pub open spec fn keys_ascending(entries: Seq<(Seq<char>, ArgShape)>) -> bool {
    forall|i: int|
        #![trigger entries[i]]
        0 <= i && i + 1 < entries.len() ==> bytes_before(
            encode_utf8(entries[i].0),
            encode_utf8(entries[i + 1].0),
        )
}

/// Calls `serde_json::Value::as_object` and walks the map with `serde_json::Map::iter`.
/// The result is `None` exactly for a value that is no object. For an object it holds one
/// entry per member: the key, and the value by its variant, an array or object as
/// `Composite`. The map is a B-tree keyed by `String`, so the entries come in ascending
/// order of their keys' bytes; this holds while the crate's `preserve_order` feature stays
/// off, as it is in this build.
#[verifier::external_body]
pub(crate) fn entries_of(args: &Value) -> (r: Option<Vec<(String, ArgValue)>>)
    ensures
        match r {
            Some(entries) => object_entries(*args) == Some(shapes(entries@)) && keys_ascending(
                shapes(entries@),
            ),
            None => object_entries(*args) is None,
        },
{
    let object = args.as_object()?;
    let mut entries = Vec::new();
    for (key, value) in object.iter() {
        entries.push((key.clone(), match value {
            Value::Null => ArgValue::Null,
            Value::Bool(b) => ArgValue::Bool(*b),
            Value::Number(n) => ArgValue::Number(n.clone()),
            Value::String(s) => ArgValue::Text(s.clone()),
            Value::Array(_) => ArgValue::Composite,
            Value::Object(_) => ArgValue::Composite,
        }));
    }
    Some(entries)
}

/// Calls `to_string` on a `serde_json::Number`, which writes the number as it stands in
/// JSON text: an integer in decimal, a float in a short form that reads back as the same
/// number.
#[verifier::external_body]
pub(crate) fn number_to_text(n: &Number) -> (r: String)
    ensures
        r@ == number_text(*n),
{
    n.to_string()
}

/// Calls `to_string` on a `serde_json::Value`, which serializes it as compact JSON.
#[verifier::external_body]
pub(crate) fn value_to_text(v: &Value) -> (r: String)
    ensures
        r@ == json_text(*v),
{
    v.to_string()
}

} // verus!
