use vstd::prelude::*;

verus! {

/// `toml::map::Map`, the crate's key-to-value table. Nothing inside it is
/// visible here; `table_model` says what it holds.
#[verifier::external_type_specification]
#[verifier::external_body]
#[verifier::reject_recursive_types(K)]
#[verifier::reject_recursive_types(V)]
pub struct ExTomlMap<K, V>(toml::map::Map<K, V>);

/// `toml::Value`, one value of a document. `value_model` says what it holds.
#[verifier::external_type_specification]
#[verifier::external_body]
pub struct ExTomlValue(toml::Value);

/// `toml::de::Error`, the reason a text is no TOML document.
#[verifier::external_type_specification]
#[verifier::external_body]
pub struct ExTomlError(toml::de::Error);

/// What a TOML value holds, as far as a project description reads it:
/// strings, arrays and tables in full, every other kind only as `Scalar`.
pub enum Toml {
    Text(Seq<char>),
    List(Seq<Toml>),
    Table(Map<Seq<char>, Toml>),
    Scalar,
}

/// The entries of a `toml::Table`, by key.
pub uninterp spec fn table_model(table: toml::Table) -> Map<Seq<char>, Toml>;

/// What a `toml::Value` holds.
pub uninterp spec fn value_model(value: toml::Value) -> Toml;

/// The top-level table that `toml::from_str` reads out of `text`, or `None`
/// where it rejects the text.
pub uninterp spec fn parsed_document(text: Seq<char>) -> Option<Map<Seq<char>, Toml>>;

/// The table without entries.
pub open spec fn no_entries() -> Map<Seq<char>, Toml> {
    Map::empty()
}

/// What each value of an array holds, in order.
pub open spec fn list_model(items: Seq<toml::Value>) -> Seq<Toml> {
    Seq::new(items.len(), |i: int| value_model(items[i]))
}

/// Calls `toml::from_str` for a `toml::Table`. The contract only gives the
/// outcome its name: the table read is `parsed_document` of the text, and
/// an error comes exactly where that is `None`.
#[verifier::external_body]
pub(crate) fn parse_table(text: &str) -> (parsed: Result<toml::Table, toml::de::Error>)
    ensures
        match parsed {
            Ok(table) => parsed_document(text@) == Some(table_model(table)),
            Err(_) => parsed_document(text@) is None,
        },
{
    toml::from_str::<toml::Table>(text)
}

/// Calls `toml::map::Map::get`: the value stored under `key`, or `None`
/// where the table has no such key.
#[verifier::external_body]
pub(crate) fn table_get<'a>(table: &'a toml::Table, key: &str) -> (found: Option<&'a toml::Value>)
    ensures
        match found {
            Some(value) => table_model(*table).contains_key(key@) && table_model(*table)[key@]
                == value_model(*value),
            None => !table_model(*table).contains_key(key@),
        },
{
    table.get(key)
}

/// Calls `toml::Value::as_str`: the characters of a string value, `None`
/// for every other kind.
#[verifier::external_body]
pub(crate) fn value_as_str<'a>(value: &'a toml::Value) -> (text: Option<&'a str>)
    ensures
        match text {
            Some(s) => value_model(*value) == Toml::Text(s@),
            None => !(value_model(*value) is Text),
        },
{
    value.as_str()
}

/// Calls `toml::Value::as_array`: the items of an array value, `None` for
/// every other kind.
#[verifier::external_body]
pub(crate) fn value_as_array<'a>(value: &'a toml::Value) -> (items: Option<&'a Vec<toml::Value>>)
    ensures
        match items {
            Some(list) => value_model(*value) == Toml::List(list_model(list@)),
            None => !(value_model(*value) is List),
        },
{
    value.as_array()
}

/// Calls `toml::Value::as_table`: the table of a table value, `None` for
/// every other kind.
#[verifier::external_body]
pub(crate) fn value_as_table<'a>(value: &'a toml::Value) -> (table: Option<&'a toml::Table>)
    ensures
        match table {
            Some(inner) => value_model(*value) == Toml::Table(table_model(*inner)),
            None => !(value_model(*value) is Table),
        },
{
    value.as_table()
}

/// Calls `toml::map::Map::new`: a table without entries.
#[verifier::external_body]
pub(crate) fn table_new() -> (table: toml::Table)
    ensures
        table_model(table) == no_entries(),
{
    toml::Table::new()
}

/// Calls `toml::map::Map::insert`: afterwards `key` holds `value`, and the
/// other keys hold what they held.
#[verifier::external_body]
pub(crate) fn table_insert(table: &mut toml::Table, key: String, value: toml::Value)
    ensures
        table_model(*final(table)) == table_model(*old(table)).insert(key@, value_model(value)),
{
    table.insert(key, value);
}

/// Builds `toml::Value::String`: a string value with the given characters.
#[verifier::external_body]
pub(crate) fn text_value(text: String) -> (value: toml::Value)
    ensures
        value_model(value) == Toml::Text(text@),
{
    toml::Value::String(text)
}

/// Builds `toml::Value::Array`: an array value with the given items.
#[verifier::external_body]
pub(crate) fn list_value(items: Vec<toml::Value>) -> (value: toml::Value)
    ensures
        value_model(value) == Toml::List(list_model(items@)),
{
    toml::Value::Array(items)
}

/// Builds `toml::Value::Table`: a table value with the given entries.
#[verifier::external_body]
pub(crate) fn table_value(table: toml::Table) -> (value: toml::Value)
    ensures
        value_model(value) == Toml::Table(table_model(table)),
{
    toml::Value::Table(table)
}

} // verus!
