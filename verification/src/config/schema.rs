//! The schema of the configuration file: which keys are read, what each
//! may hold, and what stands in for a key that is left out.
//!
//! ```toml
//! workspaces = 10
//!
//! [input]
//! keyboard_layout = "us"
//! keyboard_variant = ""
//! ```
//!
//! Every value may be left out, and so may the `input` table: an empty
//! file holds the defaults. Keys that the schema does not know are passed
//! over.
use vstd::prelude::*;
use vstd::string::*;
use crate::config::document::{table_get, table_insert, table_new, Found, Item, ItemView};
use crate::config::document::{no_entries, plain, plain_item, table_entries};
use crate::config::{ConfigView, InputConfig, WaysightConfig};

verus! {

/// A way in which a TOML document fails to fit the schema.
#[derive(Clone, Copy, Debug, PartialEq, Eq, Structural)]
pub enum SchemaFault {
    /// `workspaces` is not an integer.
    WorkspacesKind,
    /// `workspaces` is negative or does not fit in 32 bits.
    WorkspacesRange,
    /// `input` is not a table.
    InputKind,
    /// `input.keyboard_layout` is not a string.
    LayoutKind,
    /// `input.keyboard_variant` is not a string.
    VariantKind,
}

/// The sentence that reports a fault.
pub open spec fn fault_text(fault: SchemaFault) -> Seq<char> {
    match fault {
        SchemaFault::WorkspacesKind => "invalid type for `workspaces`: expected an integer"@,
        SchemaFault::WorkspacesRange => "invalid value for `workspaces`: expected a number from 0 to 4294967295"@,
        SchemaFault::InputKind => "invalid type for `input`: expected a table"@,
        SchemaFault::LayoutKind => "invalid type for `input.keyboard_layout`: expected a string"@,
        SchemaFault::VariantKind => "invalid type for `input.keyboard_variant`: expected a string"@,
    }
}

impl SchemaFault {
    /// Reports the fault in a sentence.
    pub fn message(&self) -> (text: String)
        ensures
            text@ == fault_text(*self),
    {
        match self {
            SchemaFault::WorkspacesKind => String::from_str(
                "invalid type for `workspaces`: expected an integer",
            ),
            SchemaFault::WorkspacesRange => String::from_str(
                "invalid value for `workspaces`: expected a number from 0 to 4294967295",
            ),
            SchemaFault::InputKind => String::from_str("invalid type for `input`: expected a table"),
            SchemaFault::LayoutKind => String::from_str(
                "invalid type for `input.keyboard_layout`: expected a string",
            ),
            SchemaFault::VariantKind => String::from_str(
                "invalid type for `input.keyboard_variant`: expected a string",
            ),
        }
    }
}

/// The sentences for two different faults are different.
pub proof fn lemma_fault_texts_differ()
    ensures
        forall|a: SchemaFault, b: SchemaFault| a != b ==> fault_text(a) != fault_text(b),
{
    reveal_strlit("invalid type for `workspaces`: expected an integer");
    reveal_strlit("invalid value for `workspaces`: expected a number from 0 to 4294967295");
    reveal_strlit("invalid type for `input`: expected a table");
    reveal_strlit("invalid type for `input.keyboard_layout`: expected a string");
    reveal_strlit("invalid type for `input.keyboard_variant`: expected a string");
    assert(fault_text(SchemaFault::WorkspacesKind).len() == 50);
    assert(fault_text(SchemaFault::WorkspacesRange).len() == 70);
    assert(fault_text(SchemaFault::InputKind).len() == 42);
    assert(fault_text(SchemaFault::LayoutKind).len() == 59);
    assert(fault_text(SchemaFault::VariantKind).len() == 60);
}

/// The number of workspaces that a document asks for.
pub open spec fn workspaces_in(doc: Map<Seq<char>, ItemView>) -> Result<u32, SchemaFault> {
    if !doc.contains_key("workspaces"@) {
        Ok(10u32)
    } else {
        match doc["workspaces"@] {
            ItemView::Integer(n) => if 0 <= n <= u32::MAX {
                Ok(n as u32)
            } else {
                Err(SchemaFault::WorkspacesRange)
            },
            _ => Err(SchemaFault::WorkspacesKind),
        }
    }
}

/// The string under `key` of a table, `fallback` if the key is left out,
/// `fault` if it holds anything but a string.
pub open spec fn text_in(
    table: Map<Seq<char>, ItemView>,
    key: Seq<char>,
    fallback: Seq<char>,
    fault: SchemaFault,
) -> Result<Seq<char>, SchemaFault> {
    if !table.contains_key(key) {
        Ok(fallback)
    } else {
        match table[key] {
            ItemView::Text(s) => Ok(s),
            _ => Err(fault),
        }
    }
}

/// The `input` table of a document: the table under `input`, an empty
/// table if the key is left out, a fault if the key holds anything else.
pub open spec fn input_in(doc: Map<Seq<char>, ItemView>) -> Result<
    Map<Seq<char>, ItemView>,
    SchemaFault,
> {
    if !doc.contains_key("input"@) {
        Ok(no_entries())
    } else {
        match doc["input"@] {
            ItemView::Table(input) => Ok(input),
            _ => Err(SchemaFault::InputKind),
        }
    }
}

/// The settings that a document holds, or the first way in which it fails
/// to fit: `workspaces` is looked at first, then `input`, then the layout,
/// then the variant.
pub open spec fn settings_in(doc: Map<Seq<char>, ItemView>) -> Result<ConfigView, SchemaFault> {
    match workspaces_in(doc) {
        Err(fault) => Err(fault),
        Ok(workspaces) => match input_in(doc) {
            Err(fault) => Err(fault),
            Ok(input) => match text_in(input, "keyboard_layout"@, "us"@, SchemaFault::LayoutKind) {
                Err(fault) => Err(fault),
                Ok(keyboard_layout) => match text_in(
                    input,
                    "keyboard_variant"@,
                    ""@,
                    SchemaFault::VariantKind,
                ) {
                    Err(fault) => Err(fault),
                    Ok(keyboard_variant) => Ok(
                        ConfigView { workspaces, keyboard_layout, keyboard_variant },
                    ),
                },
            },
        },
    }
}

/// The entries of the `input` table that holds the given settings.
pub open spec fn input_entries_of(config: ConfigView) -> Map<Seq<char>, ItemView> {
    no_entries().insert("keyboard_layout"@, ItemView::Text(config.keyboard_layout)).insert(
        "keyboard_variant"@,
        ItemView::Text(config.keyboard_variant),
    )
}

/// The entries of the document that holds the given settings.
pub open spec fn entries_of(config: ConfigView) -> Map<Seq<char>, ItemView> {
    no_entries().insert("workspaces"@, ItemView::Integer(config.workspaces as i64)).insert(
        "input"@,
        ItemView::Table(input_entries_of(config)),
    )
}

fn read_workspaces(doc: &toml::Table) -> (r: Result<u32, SchemaFault>)
    ensures
        r == workspaces_in(table_entries(*doc)),
{
    match table_get(doc, "workspaces") {
        Found::Nothing => Ok(10),
        Found::Item(Item::Integer(n)) => {
            if 0 <= n && n <= 4294967295 {
                Ok(n as u32)
            } else {
                Err(SchemaFault::WorkspacesRange)
            }
        },
        _ => Err(SchemaFault::WorkspacesKind),
    }
}

fn read_text(table: &toml::Table, key: &str, fallback: &str, fault: SchemaFault) -> (r: Result<
    String,
    SchemaFault,
>)
    ensures
        match text_in(table_entries(*table), key@, fallback@, fault) {
            Ok(s) => r matches Ok(t) && t@ == s,
            Err(f) => r matches Err(g) && g == f,
        },
{
    match table_get(table, key) {
        Found::Nothing => Ok(String::from_str(fallback)),
        Found::Item(Item::Text(s)) => Ok(s),
        _ => Err(fault),
    }
}

/// Reads the settings out of a parsed document.
///
/// Succeeds exactly on the documents that fit the schema, with the values
/// they hold and the defaults for what they leave out; fails with the first
/// fault otherwise.
pub fn read_settings(doc: &toml::Table) -> (r: Result<WaysightConfig, SchemaFault>)
    ensures
        match settings_in(table_entries(*doc)) {
            Ok(view) => r matches Ok(config) && config@ == view,
            Err(fault) => r matches Err(f) && f == fault,
        },
{
    let workspaces = match read_workspaces(doc) {
        Ok(n) => n,
        Err(fault) => { return Err(fault); },
    };
    let input = match table_get(doc, "input") {
        Found::Nothing => table_new(),
        Found::Item(Item::Table(input)) => input,
        _ => { return Err(SchemaFault::InputKind); },
    };
    let keyboard_layout = match read_text(&input, "keyboard_layout", "us", SchemaFault::LayoutKind) {
        Ok(s) => s,
        Err(fault) => { return Err(fault); },
    };
    let keyboard_variant = match read_text(
        &input,
        "keyboard_variant",
        "",
        SchemaFault::VariantKind,
    ) {
        Ok(s) => s,
        Err(fault) => { return Err(fault); },
    };
    Ok(WaysightConfig { workspaces, input: InputConfig { keyboard_layout, keyboard_variant } })
}

/// Builds the document that holds the given settings.
pub fn document_of(config: &WaysightConfig) -> (doc: toml::Table)
    ensures
        table_entries(doc) == entries_of(config@),
{
    let mut input = table_new();
    table_insert(&mut input, "keyboard_layout", Item::Text(config.input.keyboard_layout.clone()));
    table_insert(&mut input, "keyboard_variant", Item::Text(config.input.keyboard_variant.clone()));
    let mut doc = table_new();
    table_insert(&mut doc, "workspaces", Item::Integer(config.workspaces as i64));
    table_insert(&mut doc, "input", Item::Table(input));
    doc
}

/// The four keys of the schema are four different strings.
pub proof fn lemma_keys_differ()
    ensures
        "workspaces"@ != "input"@,
        "keyboard_layout"@ != "keyboard_variant"@,
{
    reveal_strlit("workspaces");
    reveal_strlit("input");
    reveal_strlit("keyboard_layout");
    reveal_strlit("keyboard_variant");
    assert("workspaces"@.len() == 10 && "input"@.len() == 5);
    assert("keyboard_layout"@.len() == 15 && "keyboard_variant"@.len() == 16);
}

/// Settings written into a document are the settings read out of it: for
/// every number of workspaces, layout and variant, the document built from
/// them fits the schema and holds exactly them.
pub proof fn lemma_written_settings_are_read(config: ConfigView)
    ensures
        settings_in(entries_of(config)) matches Ok(read) && read == config,
{
    lemma_keys_differ();
}

/// A number of workspaces that a document gives is the number that is read:
/// if `workspaces` is an integer `n` that fits in 32 bits, then whatever
/// else the document holds, the settings read from it hold `n`, and if none
/// are read the fault lies elsewhere.
pub proof fn lemma_workspaces_override(doc: Map<Seq<char>, ItemView>, n: i64)
    requires
        doc.contains_key("workspaces"@),
        doc["workspaces"@] == ItemView::Integer(n),
        0 <= n <= u32::MAX,
    ensures
        workspaces_in(doc) matches Ok(w) && w == n,
        settings_in(doc) matches Ok(config) ==> config.workspaces == n,
        settings_in(doc) matches Err(fault) ==> fault != SchemaFault::WorkspacesKind && fault
            != SchemaFault::WorkspacesRange,
{
}

/// Defaults fill in whatever is left out: a document without `workspaces`
/// and without `input`, the empty document among them, holds the default
/// settings, and so does one whose `input` table is empty.
pub proof fn lemma_defaults_fill_in(doc: Map<Seq<char>, ItemView>)
    requires
        !doc.contains_key("workspaces"@),
        !doc.contains_key("input"@) || doc["input"@] == ItemView::Table(no_entries()),
    ensures
        settings_in(doc) matches Ok(config) && config == crate::config::default_view(),
{
}

/// The document built from settings is plain: it holds an integer and a
/// table of two strings.
pub proof fn lemma_written_document_is_plain(config: ConfigView)
    ensures
        plain(entries_of(config)),
{
    let input = input_entries_of(config);
    assert(plain_item(ItemView::Table(input))) by {
        assert forall|key: Seq<char>| input.contains_key(key) implies plain_item(
            #[trigger] input[key],
        ) by {}
    }
    assert forall|key: Seq<char>| entries_of(config).contains_key(key) implies plain_item(
        #[trigger] entries_of(config)[key],
    ) by {}
}

} // verus!
