//! Loading the settings: from the text of a file to the settings, and the
//! steps from "no file yet" to "settings in hand".
//!
//! Nothing here touches the file system. The caller looks at the path that
//! `config_path` gives, reports what it found as a `FileProbe`, and does the
//! writing that a `LoadAction` asks for.
use vstd::prelude::*;
use vstd::string::*;
use crate::config::document::{
    parse_document, render_document, table_entries, toml_document, toml_text, ItemView,
};
use crate::config::paths::{config_path, ConfigEnv};
use crate::config::schema::{
    document_of, entries_of, fault_text, lemma_fault_texts_differ, lemma_workspaces_override,
    lemma_written_document_is_plain, read_settings, settings_in, SchemaFault,
};
use crate::config::{ConfigError, ConfigErrorView, ConfigView, WaysightConfig, default_view};
use crate::utils::text::str_eq;

verus! {

/// What was found at the path of the configuration file.
pub enum FileProbe {
    /// Nothing is there.
    Missing,
    /// Something is there and could not be read; with the system's message.
    Unreadable(String),
    /// The text of the file.
    Content(String),
}

/// The outcome of reading a text as a configuration file: the settings it
/// holds, or why it is malformed.
pub open spec fn parse_text_spec(text: Seq<char>) -> Result<ConfigView, ConfigErrorView> {
    match toml_document(text) {
        Err(message) => Err(ConfigErrorView::MalformedConfig(message)),
        Ok(doc) => match settings_in(doc) {
            Ok(config) => Ok(config),
            Err(fault) => Err(ConfigErrorView::MalformedConfig(fault_text(fault))),
        },
    }
}

/// The outcome of looking for the settings at a path, given what is there.
pub open spec fn parse_spec(path: Option<Seq<char>>, probe: FileProbe) -> Result<
    ConfigView,
    ConfigErrorView,
> {
    match path {
        None => Err(ConfigErrorView::InvalidPath),
        Some(_) => match probe {
            FileProbe::Missing => Err(ConfigErrorView::InvalidPath),
            FileProbe::Unreadable(message) => Err(ConfigErrorView::IOError(message@)),
            FileProbe::Content(text) => parse_text_spec(text@),
        },
    }
}

/// Whether an outcome is the expected one, value for value.
pub open spec fn outcome_is(
    r: Result<WaysightConfig, ConfigError>,
    expected: Result<ConfigView, ConfigErrorView>,
) -> bool {
    match expected {
        Ok(config) => r matches Ok(c) && c@ == config,
        Err(error) => r matches Err(e) && e@ == error,
    }
}

/// Decides what a parsed document amounts to. A document that the parser
/// refused is malformed, with the parser's message; one that does not fit
/// the schema is malformed, with the fault's sentence.
pub fn settings_of_document(parsed: Result<toml::Table, String>) -> (r: Result<
    WaysightConfig,
    ConfigError,
>)
    ensures
        match parsed {
            Err(message) => r matches Err(e) && e@ == ConfigErrorView::MalformedConfig(message@),
            Ok(doc) => match settings_in(table_entries(doc)) {
                Ok(config) => r matches Ok(c) && c@ == config,
                Err(fault) => r matches Err(e) && e@ == ConfigErrorView::MalformedConfig(
                    fault_text(fault),
                ),
            },
        },
{
    match parsed {
        Err(message) => Err(ConfigError::MalformedConfig(message)),
        Ok(doc) => match read_settings(&doc) {
            Ok(config) => Ok(config),
            Err(fault) => Err(ConfigError::MalformedConfig(fault.message())),
        },
    }
}

/// Reads the text of a configuration file.
pub fn parse_text(text: &str) -> (r: Result<WaysightConfig, ConfigError>)
    ensures
        outcome_is(r, parse_text_spec(text@)),
{
    settings_of_document(parse_document(text))
}

/// Looks for the settings where the user and the environment say, given
/// what the caller found at `config_path(user_set_path, env)`.
///
/// No path, or nothing at the path, is `InvalidPath`; an unreadable file is
/// `IOError`; a file that is not TOML or does not fit the schema is
/// `MalformedConfig`; any other file gives its settings.
pub fn parse(user_set_path: &Option<String>, env: &ConfigEnv, probe: FileProbe) -> (r: Result<
    WaysightConfig,
    ConfigError,
>)
    ensures
        outcome_is(r, parse_spec(env.path_for(*user_set_path), probe)),
{
    match config_path(user_set_path, env) {
        Err(e) => Err(e),
        Ok(_) => match probe {
            FileProbe::Missing => Err(ConfigError::InvalidPath),
            FileProbe::Unreadable(message) => Err(ConfigError::IOError(message)),
            FileProbe::Content(text) => parse_text(text.as_str()),
        },
    }
}

/// A number of workspaces that a file gives is the number that is read
/// from it: if the file is a TOML document in which `workspaces` is an
/// integer `n` that fits in 32 bits, then the settings read from the file,
/// if any are, hold `n`.
pub proof fn lemma_written_workspaces_are_parsed(text: Seq<char>, n: i64)
    requires
        toml_document(text) matches Ok(doc) && doc.contains_key("workspaces"@) && doc["workspaces"@]
            == ItemView::Integer(n),
        0 <= n <= u32::MAX,
    ensures
        parse_text_spec(text) matches Ok(config) ==> config.workspaces == n,
        parse_text_spec(text) matches Err(error) ==> error != ConfigErrorView::MalformedConfig(
            fault_text(SchemaFault::WorkspacesKind),
        ) && error != ConfigErrorView::MalformedConfig(fault_text(SchemaFault::WorkspacesRange)),
{
    let doc = toml_document(text)->Ok_0;
    lemma_workspaces_override(doc, n);
    lemma_fault_texts_differ();
}

/// A default configuration file that is ready to be written.
pub struct GeneratedConfig {
    /// Where the file belongs. The directories above it may have to be made.
    pub path: String,
    /// The text of the file.
    pub contents: String,
}

/// Whether a text is a configuration file that holds the default settings.
pub open spec fn holds_defaults(text: Seq<char>) -> bool {
    parse_text_spec(text) matches Ok(config) && config == default_view()
}

/// Why a text that does not hold the default settings is refused as the
/// default file: for the reason that makes it malformed, if it is, and else
/// because it reads back as other settings.
pub open spec fn refusal_text(text: Seq<char>) -> Seq<char> {
    match parse_text_spec(text) {
        Err(ConfigErrorView::MalformedConfig(reason)) => reason,
        _ => "the default configuration does not read back"@,
    }
}

/// Accepts the text that the TOML writer made of the default settings, if
/// it reads back as the default settings, and refuses it as malformed if the
/// writer failed, with the writer's message, or if the text reads back as
/// anything else.
pub fn accept_generated(rendered: Result<String, String>) -> (r: Result<String, ConfigError>)
    ensures
        match rendered {
            Ok(text) => if holds_defaults(text@) {
                r matches Ok(t) && t == text
            } else {
                r matches Err(e) && e@ == ConfigErrorView::MalformedConfig(refusal_text(text@))
            },
            Err(message) => r matches Err(e) && e@ == ConfigErrorView::MalformedConfig(message@),
        },
{
    match rendered {
        Err(message) => Err(ConfigError::MalformedConfig(message)),
        Ok(text) => match parse_text(text.as_str()) {
            Ok(config) => {
                if config.workspaces == 10 && str_eq(config.input.keyboard_layout.as_str(), "us")
                    && str_eq(config.input.keyboard_variant.as_str(), "") {
                    Ok(text)
                } else {
                    Err(
                        ConfigError::MalformedConfig(
                            String::from_str("the default configuration does not read back"),
                        ),
                    )
                }
            },
            Err(ConfigError::MalformedConfig(message)) => Err(ConfigError::MalformedConfig(message)),
            Err(_) => Err(
                ConfigError::MalformedConfig(
                    String::from_str("the default configuration does not read back"),
                ),
            ),
        },
    }
}

/// What becomes of the default configuration file: the text that the TOML
/// writer makes of the default settings, if it reads back as them, and else
/// the reason why there is none, which is the writer's message if the
/// writer fails and the reason for refusing its text if the text is wrong.
pub open spec fn generated_contents() -> Result<Seq<char>, Seq<char>> {
    match toml_text(entries_of(default_view())) {
        Ok(text) => if holds_defaults(text) {
            Ok(text)
        } else {
            Err(refusal_text(text))
        },
        Err(message) => Err(message),
    }
}

/// Makes the text of the default configuration file.
///
/// The text comes from the TOML writer, and is handed out once it has been
/// read back as the default settings. There is a file exactly when the
/// writer makes a text of the default settings that reads back as them.
pub fn default_contents() -> (r: Result<String, ConfigError>)
    ensures
        match generated_contents() {
            Ok(text) => r matches Ok(t) && t@ == text,
            Err(reason) => r matches Err(e) && e@ == ConfigErrorView::MalformedConfig(reason),
        },
{
    let config = WaysightConfig::default();
    let doc = document_of(&config);
    proof {
        lemma_written_document_is_plain(default_view());
    }
    accept_generated(render_document(&doc))
}

/// What becomes of preparing the default file for a path: without a path
/// there is nothing to prepare; with one, the file is the path and the
/// default contents, if there are any.
pub open spec fn generated_for(path: Option<Seq<char>>) -> Result<
    (Seq<char>, Seq<char>),
    ConfigErrorView,
> {
    match path {
        None => Err(ConfigErrorView::InvalidPath),
        Some(path) => match generated_contents() {
            Ok(text) => Ok((path, text)),
            Err(reason) => Err(ConfigErrorView::MalformedConfig(reason)),
        },
    }
}

/// Whether a prepared file is the expected one, value for value.
pub open spec fn generated_is(
    r: Result<GeneratedConfig, ConfigError>,
    expected: Result<(Seq<char>, Seq<char>), ConfigErrorView>,
) -> bool {
    match expected {
        Ok((path, text)) => r matches Ok(generated) && generated.path@ == path
            && generated.contents@ == text,
        Err(error) => r matches Err(e) && e@ == error,
    }
}

/// Prepares the default configuration file for the place where the user and
/// the environment say it belongs.
///
/// With no such place the result is `InvalidPath`. Otherwise the path is the
/// one that `config_path` gives: the user's own, else the one below
/// `XDG_CONFIG_HOME`, else the one below `HOME`. The contents are the text
/// that the TOML writer makes of the default settings; they are handed out
/// whenever that text reads back as the default settings, and the result
/// is `MalformedConfig` only if it does not.
pub fn generate_config(user_path: &Option<String>, env: &ConfigEnv) -> (r: Result<
    GeneratedConfig,
    ConfigError,
>)
    ensures
        generated_is(r, generated_for(env.path_for(*user_path))),
{
    let path = match config_path(user_path, env) {
        Ok(path) => path,
        Err(e) => { return Err(e); },
    };
    match default_contents() {
        Ok(contents) => Ok(GeneratedConfig { path, contents }),
        Err(e) => Err(e),
    }
}

/// How far loading has come.
#[derive(Clone, Copy, Debug, PartialEq, Eq, Structural)]
pub enum LoadState {
    /// Nothing has been written by this process.
    Start,
    /// A default file has been handed out for writing.
    Generated,
}

/// What the caller has to do next.
pub enum LoadAction {
    /// Loading is over: these are the settings.
    Use(WaysightConfig),
    /// Make the directories above the path, write the file, look at the
    /// path again and come back.
    WriteDefault(GeneratedConfig),
    /// Loading is over: startup has to stop.
    Abort(ConfigError),
}

impl WaysightConfig {
    /// One step of loading the settings.
    ///
    /// `probe` is what the caller found at `config_path(user_path, env)`.
    /// Settings that could be read are used. A missing file is made up for
    /// once: the first time, the default file is handed out for writing.
    /// Every other failure stops startup: a malformed or unreadable file is
    /// never repaired, and a file that is still missing after it was
    /// written is not written again.
    pub fn load_config(
        state: LoadState,
        user_path: &Option<String>,
        env: &ConfigEnv,
        probe: FileProbe,
    ) -> (r: (LoadState, LoadAction))
        ensures
            match parse_spec(env.path_for(*user_path), probe) {
                Ok(config) => r.0 == state && (r.1 matches LoadAction::Use(c) && c@ == config),
                Err(ConfigErrorView::InvalidPath) => match (state, env.path_for(*user_path)) {
                    (LoadState::Start, Some(path)) => r.0 == LoadState::Generated
                        && match generated_contents() {
                        Ok(text) => r.1 matches LoadAction::WriteDefault(generated)
                            && generated.path@ == path && generated.contents@ == text,
                        Err(reason) => r.1 matches LoadAction::Abort(e) && e@
                            == ConfigErrorView::MalformedConfig(reason),
                    },
                    _ => r.0 == state && (r.1 matches LoadAction::Abort(e) && e
                        is InvalidPath),
                },
                Err(error) => r.0 == state && (r.1 matches LoadAction::Abort(e) && e@ == error),
            },
    {
        match parse(user_path, env, probe) {
            Ok(config) => (state, LoadAction::Use(config)),
            Err(ConfigError::InvalidPath) => match state {
                LoadState::Start => match generate_config(user_path, env) {
                    Ok(generated) => (LoadState::Generated, LoadAction::WriteDefault(generated)),
                    Err(ConfigError::InvalidPath) => (
                        state,
                        LoadAction::Abort(ConfigError::InvalidPath),
                    ),
                    Err(e) => (LoadState::Generated, LoadAction::Abort(e)),
                },
                LoadState::Generated => (state, LoadAction::Abort(ConfigError::InvalidPath)),
            },
            Err(e) => (state, LoadAction::Abort(e)),
        }
    }
}

/// The default file is owed wherever the TOML writer does its part: if
/// the text that it makes of the default settings reads back as them, then
/// for every path the file is prepared, with that path and that text.
pub proof fn lemma_default_file_is_owed(path: Seq<char>)
    requires
        toml_text(entries_of(default_view())) matches Ok(text) && holds_defaults(text),
    ensures
        generated_for(Some(path)) matches Ok(file) && file.0 == path && holds_defaults(file.1),
        generated_contents() == toml_text(entries_of(default_view())),
{
}

/// A default file that was handed out for writing loads as the default
/// settings, in either state and at any path: once it is on disk, nothing
/// is generated again.
pub proof fn lemma_generated_file_loads(path: Seq<char>, probe: FileProbe)
    requires
        probe matches FileProbe::Content(text) && holds_defaults(text@),
    ensures
        parse_spec(Some(path), probe) matches Ok(config) && config == default_view(),
{
}

} // verus!
