//! TOML documents, as far as the settings need them.
//!
//! The `toml` crate does the parsing and the writing. Everything in this file
//! that touches it is trusted rather than proved: the two type declarations,
//! the three names and the five small functions that make the calls.
use vstd::prelude::*;

verus! {

/// `toml::map::Map`, the map from keys to values that a TOML table is.
/// Nothing is known of a value of it but what `table_entries` says.
#[verifier::external_type_specification]
#[verifier::external_body]
#[verifier::reject_recursive_types(K)]
#[verifier::reject_recursive_types(V)]
pub struct ExTomlMap<K, V>(toml::map::Map<K, V>);

/// `toml::Value`, one value of a TOML document. It is declared because
/// tables are maps to it; what is read from a value is read from an `Item`.
#[verifier::external_type_specification]
#[verifier::external_body]
pub struct ExTomlValue(toml::Value);

/// The mathematical content of one value of a TOML table.
///
/// Floats, booleans, date-times and arrays are all `Other`: no setting is
/// read from them, so their payload is not modelled.
pub enum ItemView {
    Integer(i64),
    Text(Seq<char>),
    Table(Map<Seq<char>, ItemView>),
    Other,
}

/// One value of a TOML table of a kind that settings are read from.
pub enum Item {
    Integer(i64),
    Text(String),
    Table(toml::Table),
}

impl View for Item {
    type V = ItemView;

    open spec fn view(&self) -> ItemView {
        match self {
            Item::Integer(n) => ItemView::Integer(*n),
            Item::Text(s) => ItemView::Text(s@),
            Item::Table(t) => ItemView::Table(table_entries(*t)),
        }
    }
}

/// What a table holds under a key.
pub enum Found {
    /// The table has no such key.
    Nothing,
    /// The key holds this.
    Item(Item),
    /// The key holds a float, a boolean, a date-time or an array.
    Other,
}

/// Whether a value is an integer, a string, or a table of such values.
pub open spec fn plain_item(item: ItemView) -> bool
    decreases item,
{
    match item {
        ItemView::Integer(_) => true,
        ItemView::Text(_) => true,
        ItemView::Table(entries) => forall|key: Seq<char>|
            entries.contains_key(key) ==> plain_item(#[trigger] entries[key]),
        ItemView::Other => false,
    }
}

/// Whether a table holds nothing but integers, strings and tables of
/// those. The entries of such a table say all there is to say of it.
pub open spec fn plain(entries: Map<Seq<char>, ItemView>) -> bool {
    plain_item(ItemView::Table(entries))
}

/// The entries of an empty table.
pub open spec fn no_entries() -> Map<Seq<char>, ItemView> {
    Map::empty()
}

/// The entries of a TOML table: each key with the value stored under it.
pub uninterp spec fn table_entries(table: toml::Table) -> Map<Seq<char>, ItemView>;

/// What `toml::from_str` makes of a text: the entries of the document's
/// top-level table, or the message of the parse error.
pub uninterp spec fn toml_document(text: Seq<char>) -> Result<Map<Seq<char>, ItemView>, Seq<char>>;

/// What `toml::to_string_pretty` makes of a table with the given entries,
/// where the entries are plain: the text, or the message of the error.
pub uninterp spec fn toml_text(entries: Map<Seq<char>, ItemView>) -> Result<Seq<char>, Seq<char>>;

/// Calls `toml::from_str` to parse `text` into a table.
///
/// Trusted: the outcome is the one that `toml_document` names for this text,
/// an error being reported by its `Display` text.
#[verifier::external_body]
pub(crate) fn parse_document(text: &str) -> (r: Result<toml::Table, String>)
    ensures
        match r {
            Ok(table) => toml_document(text@) matches Ok(entries) && entries == table_entries(
                table,
            ),
            Err(message) => toml_document(text@) matches Err(reason) && reason == message@,
        },
{
    toml::from_str::<toml::Table>(text).map_err(|e| e.to_string())
}

/// Calls `toml::map::Map::get` and copies out what it finds.
///
/// Trusted: the result is `Nothing` exactly when the table has no such key,
/// `Other` exactly when the key holds a value of a kind that no setting is
/// read from, and otherwise the value that the key holds.
#[verifier::external_body]
pub(crate) fn table_get(table: &toml::Table, key: &str) -> (r: Found)
    ensures
        match r {
            Found::Nothing => !table_entries(*table).contains_key(key@),
            Found::Item(item) => table_entries(*table).contains_key(key@) && table_entries(
                *table,
            )[key@] == item@,
            Found::Other => table_entries(*table).contains_key(key@) && table_entries(
                *table,
            )[key@] is Other,
        },
{
    match table.get(key) {
        None => Found::Nothing,
        Some(toml::Value::Integer(n)) => Found::Item(Item::Integer(*n)),
        Some(toml::Value::String(s)) => Found::Item(Item::Text(s.clone())),
        Some(toml::Value::Table(t)) => Found::Item(Item::Table(t.clone())),
        Some(toml::Value::Float(_)) => Found::Other,
        Some(toml::Value::Boolean(_)) => Found::Other,
        Some(toml::Value::Datetime(_)) => Found::Other,
        Some(toml::Value::Array(_)) => Found::Other,
    }
}

/// Calls `toml::map::Map::new`.
///
/// Trusted: the new table has no entries.
#[verifier::external_body]
pub(crate) fn table_new() -> (r: toml::Table)
    ensures
        table_entries(r) == no_entries(),
{
    toml::Table::new()
}

/// Calls `toml::map::Map::insert`.
///
/// Trusted: afterwards `key` holds `item`, whatever it held before, and every
/// other key holds what it held.
#[verifier::external_body]
pub(crate) fn table_insert(table: &mut toml::Table, key: &str, item: Item)
    ensures
        table_entries(*final(table)) == table_entries(*old(table)).insert(key@, item@),
{
    let value = match item {
        Item::Integer(n) => toml::Value::Integer(n),
        Item::Text(s) => toml::Value::String(s),
        Item::Table(t) => toml::Value::Table(t),
    };
    table.insert(key.to_owned(), value);
}

/// Calls `toml::to_string_pretty` to write a table out as text.
///
/// Trusted: for a plain table the outcome is the one that `toml_text` names
/// for its entries, an error being reported by its `Display` text. The
/// writer walks the entries in the order of their keys and reads nothing
/// else of the table. Of a table that holds a float, a boolean, a date-time
/// or an array nothing is claimed: the entries do not say what those are.
#[verifier::external_body]
pub(crate) fn render_document(table: &toml::Table) -> (r: Result<String, String>)
    ensures
        plain(table_entries(*table)) ==> match r {
            Ok(text) => toml_text(table_entries(*table)) matches Ok(named) && named == text@,
            Err(message) => toml_text(table_entries(*table)) matches Err(named) && named
                == message@,
        },
{
    toml::to_string_pretty(table).map_err(|e| e.to_string())
}

} // verus!
