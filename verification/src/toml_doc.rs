//! The parsed configuration document, as the `toml` crate holds it, and the
//! few calls into that crate that the resolver makes. Nothing here is
//! proved: each contract restates what the crate's source shows of the call.

use vstd::prelude::*;

verus! {

/// `toml::map::Map`, the crate's table type; `toml::Table` is this map from
/// `String` to `toml::Value`.
#[verifier::external_type_specification]
#[verifier::external_body]
#[verifier::reject_recursive_types(K)]
#[verifier::reject_recursive_types(V)]
pub struct ExTomlMap<K, V>(toml::map::Map<K, V>);

/// `toml::Value`, one value of a document.
#[verifier::external_type_specification]
#[verifier::external_body]
pub struct ExTomlValue(toml::Value);

/// `toml::de::Error`, what the parser reports of a malformed document.
#[verifier::external_type_specification]
#[verifier::external_body]
pub struct ExTomlError(toml::de::Error);

/// The shape of a value in a document, as far as resolution reads it.
pub struct Shape {
    /// The characters of the value, where it is a string.
    pub text: Option<Seq<char>>,
    /// The elements of the value, where it is an array: each element is its
    /// string, or `None` where it is no string.
    pub items: Option<Seq<Option<Seq<char>>>>,
}

/// A document: the shape stored under each key that is present.
pub type Document = Map<Seq<char>, Shape>;

/// The document that parsing `text` yields, or, where the parser rejects
/// the text, what it says went wrong.
pub uninterp spec fn parsed_document(text: Seq<char>) -> Result<Map<Seq<char>, Shape>, Seq<char>>;

/// The error as it is shown to a user: where in the text the parser
/// stopped, the line it stopped in, and what went wrong.
pub uninterp spec fn error_text(error: toml::de::Error) -> Seq<char>;

/// The entries of a table: each key that is present, with the shape of the
/// value stored under it.
pub uninterp spec fn document(table: toml::Table) -> Map<Seq<char>, Shape>;

/// The characters of a value that is a string; `None` for every other kind
/// of value.
pub uninterp spec fn value_text(value: toml::Value) -> Option<Seq<char>>;

/// The elements of a value that is an array, in order, each as its string
/// or as `None` where it is no string; `None` for every other kind of
/// value.
pub uninterp spec fn value_items(value: toml::Value) -> Option<Seq<Option<Seq<char>>>>;

/// The shape of a value.
pub open spec fn shape_of(value: toml::Value) -> Shape {
    Shape { text: value_text(value), items: value_items(value) }
}

/// Calls `<toml::Table as FromStr>::from_str`, the crate's document parser.
/// The contract only names the outcome, which the text alone decides: the
/// table that comes back holds the document that the text spells, and the
/// error that comes back shows what the parser found wrong with the text.
#[verifier::external_body]
pub(crate) fn parse_table(text: &str) -> (parsed: Result<toml::Table, toml::de::Error>)
    ensures
        match parsed {
            Ok(table) => parsed_document(text@) == Ok::<Map<Seq<char>, Shape>, Seq<char>>(
                document(table),
            ),
            Err(error) => parsed_document(text@) == Err::<Map<Seq<char>, Shape>, Seq<char>>(
                error_text(error),
            ),
        },
{
    text.parse::<toml::Table>()
}

/// Calls `to_string` on the error, which writes it out through the crate's
/// `Display` for `toml::de::Error`: the place in the text, the line it
/// lies in, and the message. The contract only names what is written,
/// which the error alone decides.
#[verifier::external_body]
pub(crate) fn error_message(error: &toml::de::Error) -> (message: String)
    ensures
        message@ == error_text(*error),
{
    error.to_string()
}

/// Calls `toml::map::Map::get`: the value stored under `key`, and `None`
/// where the table has no such key.
#[verifier::external_body]
pub(crate) fn table_get<'a>(table: &'a toml::Table, key: &str) -> (found: Option<&'a toml::Value>)
    ensures
        match found {
            Some(value) => document(*table).contains_key(key@) && document(*table)[key@]
                == shape_of(*value),
            None => !document(*table).contains_key(key@),
        },
{
    table.get(key)
}

/// Calls `toml::Value::as_str`: the string of a string value, `None` for
/// any other variant.
#[verifier::external_body]
pub(crate) fn value_as_str<'a>(value: &'a toml::Value) -> (text: Option<&'a str>)
    ensures
        match text {
            Some(s) => value_text(*value) == Some(s@),
            None => value_text(*value) is None,
        },
{
    value.as_str()
}

/// Calls `toml::Value::as_array`: the elements of an array value, `None`
/// for any other variant.
#[verifier::external_body]
pub(crate) fn value_as_array<'a>(value: &'a toml::Value) -> (items: Option<&'a Vec<toml::Value>>)
    ensures
        match items {
            Some(v) => value_items(*value) == Some(Seq::new(v@.len(), |i: int| value_text(v@[i]))),
            None => value_items(*value) is None,
        },
{
    value.as_array()
}

} // verus!
