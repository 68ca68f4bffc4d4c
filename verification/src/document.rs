//! A parsed TOML document, as far as configuration loading reads it: the
//! top-level keys and the shape of the value under each.
//!
//! Parsing and key lookup are done by the `toml` crate. What it returns is
//! not verified here; the contracts of the two private functions at the end
//! of this file say what is taken on trust.

use crate::error::ParseError;
use toml::Value;
use vstd::prelude::*;

verus! {

/// `toml::map::Map`, the table type of the `toml` crate, carried as an
/// opaque value.
#[verifier::external_type_specification]
#[verifier::external_body]
#[verifier::reject_recursive_types(K)]
#[verifier::reject_recursive_types(V)]
pub struct ExTomlMap<K, V>(toml::map::Map<K, V>);

/// `toml::Value`, carried as an opaque value.
#[verifier::external_type_specification]
#[verifier::external_body]
pub struct ExTomlValue(toml::Value);

/// `toml::de::Error`, the error of a failed parse, carried as an opaque
/// value.
#[verifier::external_type_specification]
#[verifier::external_body]
pub struct ExTomlError(toml::de::Error);

/// The value found under a key, reduced to what option decoding reads:
/// the payload of a string, an integer or a boolean, and merely the shape
/// of anything else.
#[derive(Clone, Debug, PartialEq, Eq)]
pub enum RawValue {
    Text(String),
    Integer(i64),
    Float,
    Boolean(bool),
    Datetime,
    Array,
    Table,
}

/// Mathematical model of a [`RawValue`].
pub enum RawValueView {
    Text(Seq<char>),
    Integer(int),
    Float,
    Boolean(bool),
    Datetime,
    Array,
    Table,
}

impl View for RawValue {
    type V = RawValueView;

    open spec fn view(&self) -> RawValueView {
        match self {
            RawValue::Text(text) => RawValueView::Text(text@),
            RawValue::Integer(number) => RawValueView::Integer(*number as int),
            RawValue::Float => RawValueView::Float,
            RawValue::Boolean(flag) => RawValueView::Boolean(*flag),
            RawValue::Datetime => RawValueView::Datetime,
            RawValue::Array => RawValueView::Array,
            RawValue::Table => RawValueView::Table,
        }
    }
}

impl DeepView for RawValue {
    type V = RawValueView;

    open spec fn deep_view(&self) -> RawValueView {
        self@
    }
}

/// The top-level entries of a table: each key with the model of its value.
pub uninterp spec fn table_entries(table: toml::Table) -> Map<Seq<char>, RawValueView>;

/// The top-level entries of the document that `text` spells, or `None`
/// where `text` is not a well-formed document.
pub uninterp spec fn document_entries(text: Seq<char>) -> Option<Map<Seq<char>, RawValueView>>;

/// What a lookup of `key` in `entries` yields.
pub open spec fn entry(entries: Map<Seq<char>, RawValueView>, key: Seq<char>) -> Option<
    RawValueView,
> {
    if entries.contains_key(key) {
        Some(entries[key])
    } else {
        None
    }
}

/// A parsed document.
pub struct Document {
    table: toml::Table,
}

impl View for Document {
    type V = Map<Seq<char>, RawValueView>;

    closed spec fn view(&self) -> Map<Seq<char>, RawValueView> {
        table_entries(self.table)
    }
}

impl Document {
    /// Parses `text`. Fails with `MalformedDocument`, and with nothing
    /// else, exactly when `text` is not a well-formed document.
    pub fn parse(text: &str) -> (parsed: Result<Document, ParseError>)
        ensures
            match parsed {
                Ok(document) => document_entries(text@) == Some(document@),
                Err(error) => error == ParseError::MalformedDocument && document_entries(text@)
                    is None,
            },
    {
        match parse_table(text) {
            Ok(table) => Ok(Document { table }),
            Err(_) => Err(ParseError::MalformedDocument),
        }
    }

    /// The value under the top-level key `key`, if the document has one.
    pub fn get(&self, key: &str) -> (found: Option<RawValue>)
        ensures
            found.deep_view() == entry(self@, key@),
    {
        table_get(&self.table, key)
    }
}

/// Calls `toml::from_str` for a `toml::Table`, which parses a whole
/// document. Trusted: the outcome is determined by the text alone, so the
/// entries of the table that comes back are named `document_entries` of
/// the text, and an error comes back exactly where that is `None`.
#[verifier::external_body]
fn parse_table(text: &str) -> (parsed: Result<toml::Table, toml::de::Error>)
    ensures
        match parsed {
            Ok(table) => document_entries(text@) == Some(table_entries(table)),
            Err(_) => document_entries(text@) is None,
        },
{
    toml::from_str::<toml::Table>(text)
}

/// Calls `toml::map::Map::get`. Trusted: it returns the value stored under
/// exactly this key, or nothing when the key is absent; the value is handed
/// out as a `RawValue` of the same variant.
#[verifier::external_body]
fn table_get(table: &toml::Table, key: &str) -> (found: Option<RawValue>)
    ensures
        found.deep_view() == entry(table_entries(*table), key@),
{
    match table.get(key) {
        None => None,
        Some(Value::String(text)) => Some(RawValue::Text(text.clone())),
        Some(Value::Integer(number)) => Some(RawValue::Integer(*number)),
        Some(Value::Float(_)) => Some(RawValue::Float),
        Some(Value::Boolean(flag)) => Some(RawValue::Boolean(*flag)),
        Some(Value::Datetime(_)) => Some(RawValue::Datetime),
        Some(Value::Array(_)) => Some(RawValue::Array),
        Some(Value::Table(_)) => Some(RawValue::Table),
    }
}

} // verus!
