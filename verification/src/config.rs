//! The on-disk descriptor of a command folder: a TOML document with three
//! required string fields, `name`, `category` and `description`.
//!
//! The TOML text itself is handed to the `toml` crate; which top-level keys
//! hold string values is therefore taken on trust, while the rule that all
//! three fields must be present is checked here.

use vstd::prelude::*;

verus! {

/// The parsed descriptor: all three fields present, taken verbatim.
#[derive(Debug)]
pub struct CommandConfig {
    pub name: String,
    pub category: String,
    pub description: String,
}

/// Why a descriptor text was rejected.
#[derive(Debug)]
pub enum ConfigError {
    /// The text is not valid TOML; the parser's own message is kept.
    Syntax(String),
    /// The text is valid TOML, but the named field is absent or not a string.
    MissingField(String),
}

#[verifier::external_type_specification]
#[verifier::external_body]
#[verifier::reject_recursive_types(K)]
#[verifier::reject_recursive_types(V)]
pub struct ExTomlMap<K, V>(toml::map::Map<K, V>);

#[verifier::external_type_specification]
#[verifier::external_body]
pub struct ExTomlValue(toml::Value);

#[verifier::external_type_specification]
#[verifier::external_body]
pub struct ExTomlDeError(toml::de::Error);

/// The top-level string fields of the table that a TOML text parses to:
/// each key whose value is a TOML string, mapped to that string; `None`
/// when the text is not valid TOML.
pub uninterp spec fn toml_table_of(s: Seq<char>) -> Option<Map<Seq<char>, Seq<char>>>;

/// The top-level string fields a parsed table holds: each key whose value is
/// a TOML string, mapped to that string.
pub uninterp spec fn table_string_fields(t: toml::Table) -> Map<Seq<char>, Seq<char>>;

/// Relies on toml's parser (`<toml::Table as core::str::FromStr>::from_str`):
/// whether the text is valid TOML, and which top-level keys hold string
/// values, depend on the text alone.
#[verifier::external_body]
fn parse_toml_table(content: &str) -> (r: Result<toml::Table, toml::de::Error>)
    ensures
        r is Ok <==> toml_table_of(content@) is Some,
        r matches Ok(t) ==> table_string_fields(t) == toml_table_of(content@)->Some_0,
{
    content.parse::<toml::Table>()
}

/// Relies on `toml::map::Map::get` and `toml::Value::as_str`: hands out the
/// value under `key` exactly when that value is a TOML string.
#[verifier::external_body]
fn table_string_value(t: &toml::Table, key: &str) -> (r: Option<String>)
    ensures
        r is Some <==> table_string_fields(*t).contains_key(key@),
        r matches Some(s) ==> s@ == table_string_fields(*t)[key@],
{
    match t.get(key).and_then(|v| v.as_str()) {
        Some(s) => Some(s.to_owned()),
        None => None,
    }
}

/// Relies on `toml::de::Error::message`: the parser's description of what
/// went wrong.
#[verifier::external_body]
fn toml_error_message(e: &toml::de::Error) -> String {
    e.message().to_owned()
}

/// The three required string fields of a descriptor text, in declaration
/// order of the struct, or `None` when the text is not valid TOML or one of
/// them is absent.
pub open spec fn config_fields_of(s: Seq<char>) -> Option<(Seq<char>, Seq<char>, Seq<char>)> {
    match toml_table_of(s) {
        None => None,
        Some(m) => {
            if m.contains_key("name"@) && m.contains_key("category"@)
                && m.contains_key("description"@) {
                Some((m["name"@], m["category"@], m["description"@]))
            } else {
                None
            }
        },
    }
}

/// The first of the three required fields that a valid table lacks, checked
/// in the order `name`, `category`, `description`.
pub open spec fn first_missing_field(m: Map<Seq<char>, Seq<char>>) -> Seq<char> {
    if !m.contains_key("name"@) {
        "name"@
    } else if !m.contains_key("category"@) {
        "category"@
    } else {
        "description"@
    }
}

impl CommandConfig {
    /// Parses a descriptor text. Succeeds exactly when the text is valid TOML
    /// whose top level holds string values under all three required keys;
    /// the fields are taken verbatim. A missing or mistyped field is named in
    /// the error.
    pub fn parse(content: &str) -> (r: Result<CommandConfig, ConfigError>)
        ensures
            r is Ok <==> config_fields_of(content@) is Some,
            r matches Ok(c) ==> (c.name@, c.category@, c.description@)
                == config_fields_of(content@)->Some_0,
            r matches Err(e) ==> (e is Syntax <==> toml_table_of(content@) is None),
            r matches Err(e) ==> (e matches ConfigError::MissingField(f)
                ==> f@ == first_missing_field(toml_table_of(content@)->Some_0)),
    {
        let table = match parse_toml_table(content) {
            Ok(t) => t,
            Err(e) => {
                return Err(ConfigError::Syntax(toml_error_message(&e)));
            },
        };
        let name = match table_string_value(&table, "name") {
            Some(s) => s,
            None => {
                return Err(ConfigError::MissingField("name".to_owned()));
            },
        };
        let category = match table_string_value(&table, "category") {
            Some(s) => s,
            None => {
                return Err(ConfigError::MissingField("category".to_owned()));
            },
        };
        let description = match table_string_value(&table, "description") {
            Some(s) => s,
            None => {
                return Err(ConfigError::MissingField("description".to_owned()));
            },
        };
        Ok(CommandConfig { name, category, description })
    }
}

} // verus!
