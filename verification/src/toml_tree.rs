//! TOML documents as trees of plain values.
//!
//! A manifest is parsed by the `toml` crate. Its result is copied into the
//! tree of this module, one node for one node, and everything that the
//! library reads of a manifest it reads from that tree.

use crate::sample::Scalar;
use crate::text::str_equal;
use vstd::prelude::*;
use vstd::string::*;

verus! {

/// `toml::Value`, of which nothing is known here.
#[verifier::external_type_specification]
#[verifier::external_body]
pub struct ExTomlValue(toml::Value);

/// `toml::de::Error`, of which nothing is known here.
#[verifier::external_type_specification]
#[verifier::external_body]
pub struct ExTomlError(toml::de::Error);

/// A node of a TOML document.
pub enum TomlValue {
    String(String),
    Integer(i64),
    /// A float, as its bit pattern.
    Float(Scalar),
    Boolean(bool),
    /// A date or time, as the document writes it.
    Datetime(String),
    Array(Vec<TomlValue>),
    /// A table: its keys with their values. Of a key that occurs twice the
    /// first entry counts.
    Table(Vec<(String, TomlValue)>),
}

/// The document that the `toml` crate reads from a text, or `None` where
/// the text is no TOML document.
pub uninterp spec fn toml_document(text: Seq<char>) -> Option<TomlValue>;

/// Copies a `toml::Value` into a tree of this module, variant by variant.
/// Nothing is claimed of the copy here; `parse_document` names the whole.
#[verifier::external_body]
fn lower(value: &toml::Value) -> TomlValue {
    match value {
        toml::Value::String(s) => TomlValue::String(s.clone()),
        toml::Value::Integer(i) => TomlValue::Integer(*i),
        toml::Value::Float(f) => TomlValue::Float(f.to_bits()),
        toml::Value::Boolean(b) => TomlValue::Boolean(*b),
        toml::Value::Datetime(d) => TomlValue::Datetime(d.to_string()),
        toml::Value::Array(a) => TomlValue::Array(a.iter().map(lower).collect()),
        toml::Value::Table(t) => TomlValue::Table(
            t.iter().map(|(k, v)| (k.clone(), lower(v))).collect(),
        ),
    }
}

/// Calls `toml::from_str` for a `toml::Value`: claims that whether the text
/// is a document, and which, depends on the text alone.
#[verifier::external_body]
fn parse_document(text: &str) -> (r: Result<TomlValue, toml::de::Error>)
    ensures
        r is Ok <==> toml_document(text@) is Some,
        r is Ok ==> Some(r->Ok_0) == toml_document(text@),
{
    match toml::from_str::<toml::Value>(text) {
        Ok(value) => Ok(lower(&value)),
        Err(error) => Err(error),
    }
}

/// Calls `to_string` on a `toml::de::Error`: the parser's message, of which
/// nothing is claimed.
#[verifier::external_body]
fn error_message(error: &toml::de::Error) -> String {
    error.to_string()
}

/// The value of the first entry with the given key.
pub open spec fn entry_lookup(entries: Seq<(String, TomlValue)>, key: Seq<char>) -> Option<
    TomlValue,
>
    decreases entries.len(),
{
    if entries.len() == 0 {
        None
    } else if entries[0].0@ == key {
        Some(entries[0].1)
    } else {
        entry_lookup(entries.drop_first(), key)
    }
}

impl TomlValue {
    /// The value under a key of a table; `None` for a key that the table
    /// lacks and for a node that is no table.
    pub open spec fn spec_get(self, key: Seq<char>) -> Option<TomlValue> {
        match self {
            TomlValue::Table(entries) => entry_lookup(entries@, key),
            _ => None,
        }
    }

    /// The text of a string node; `None` for any other node.
    pub open spec fn spec_as_str(self) -> Option<Seq<char>> {
        match self {
            TomlValue::String(s) => Some(s@),
            _ => None,
        }
    }

    /// The bit pattern of a float node; `None` for any other node.
    pub open spec fn spec_as_float(self) -> Option<Scalar> {
        match self {
            TomlValue::Float(f) => Some(f),
            _ => None,
        }
    }

    /// The number of entries of a table; zero for any other node.
    pub open spec fn spec_entry_count(self) -> nat {
        match self {
            TomlValue::Table(entries) => entries@.len(),
            _ => 0,
        }
    }

    /// Reads a TOML document from a text. The error holds the parser's
    /// message.
    pub fn parse(text: &str) -> (r: Result<TomlValue, String>)
        ensures
            r is Ok <==> toml_document(text@) is Some,
            r is Ok ==> Some(r->Ok_0) == toml_document(text@),
    {
        match parse_document(text) {
            Ok(value) => Ok(value),
            Err(error) => Err(error_message(&error)),
        }
    }

    /// The value under a key of a table; `None` for a key that the table
    /// lacks and for a node that is no table.
    #[verifier::loop_isolation(false)]
    pub fn get(&self, key: &str) -> (r: Option<&TomlValue>)
        ensures
            r is Some <==> self.spec_get(key@) is Some,
            r is Some ==> *r->0 == self.spec_get(key@)->0,
    {
        match self {
            TomlValue::Table(entries) => {
                let mut i: usize = 0;
                assert(entries@.skip(0) =~= entries@);
                while i < entries.len()
                    invariant
                        i <= entries.len(),
                        entry_lookup(entries@, key@) == entry_lookup(entries@.skip(i as int), key@),
                    decreases entries.len() - i,
                {
                    assert(entries@.skip(i as int).drop_first() =~= entries@.skip(i + 1));
                    if str_equal(entries[i].0.as_str(), key) {
                        return Some(&entries[i].1);
                    }
                    i = i + 1;
                }
                None
            },
            _ => None,
        }
    }

    /// The text of a string node; `None` for any other node.
    pub fn as_str(&self) -> (r: Option<&str>)
        ensures
            r is Some <==> self.spec_as_str() is Some,
            r is Some ==> r->0@ == self.spec_as_str()->0,
    {
        match self {
            TomlValue::String(s) => Some(s.as_str()),
            _ => None,
        }
    }

    /// The bit pattern of a float node; `None` for any other node.
    pub fn as_float(&self) -> (r: Option<Scalar>)
        ensures
            r == self.spec_as_float(),
    {
        match self {
            TomlValue::Float(f) => Some(*f),
            _ => None,
        }
    }

    /// The number of entries of a table; zero for any other node.
    pub fn entry_count(&self) -> (n: usize)
        ensures
            n == self.spec_entry_count(),
    {
        match self {
            TomlValue::Table(entries) => entries.len(),
            _ => 0,
        }
    }
}

} // verus!
