//! Settings: what they hold, what they default to, and the errors of loading them.
use vstd::prelude::*;
use vstd::string::*;

pub mod document;
pub mod paths;
pub mod schema;
pub mod load;

verus! {

/// Input settings.
pub struct InputConfig {
    pub keyboard_layout: String,
    pub keyboard_variant: String,
}

/// The settings of the compositor. Every field always has a value: what a
/// configuration file leaves out is filled in from the defaults.
pub struct WaysightConfig {
    pub workspaces: u32,
    pub input: InputConfig,
}

/// The settings as mathematical values.
pub struct ConfigView {
    pub workspaces: u32,
    pub keyboard_layout: Seq<char>,
    pub keyboard_variant: Seq<char>,
}

impl View for WaysightConfig {
    type V = ConfigView;

    open spec fn view(&self) -> ConfigView {
        ConfigView {
            workspaces: self.workspaces,
            keyboard_layout: self.input.keyboard_layout@,
            keyboard_variant: self.input.keyboard_variant@,
        }
    }
}

/// Why no settings could be loaded.
pub enum ConfigError {
    /// No path could be worked out, or no file is at it.
    InvalidPath,
    /// The file is not TOML, or does not fit the schema; with the reason.
    MalformedConfig(String),
    /// The file could not be read or written; with the system's message.
    IOError(String),
}

/// An error as mathematical values.
pub enum ConfigErrorView {
    InvalidPath,
    MalformedConfig(Seq<char>),
    IOError(Seq<char>),
}

impl View for ConfigError {
    type V = ConfigErrorView;

    open spec fn view(&self) -> ConfigErrorView {
        match self {
            ConfigError::InvalidPath => ConfigErrorView::InvalidPath,
            ConfigError::MalformedConfig(m) => ConfigErrorView::MalformedConfig(m@),
            ConfigError::IOError(m) => ConfigErrorView::IOError(m@),
        }
    }
}

/// The text that describes an error.
pub open spec fn error_text(e: ConfigErrorView) -> Seq<char> {
    match e {
        ConfigErrorView::InvalidPath => "Could not find a valid config file"@,
        ConfigErrorView::MalformedConfig(m) => "Malformed config file: `"@ + m + "`"@,
        ConfigErrorView::IOError(m) => "IO error occurred: `"@ + m + "`"@,
    }
}

impl ConfigError {
    /// Describes the error in a sentence.
    pub fn message(&self) -> (text: String)
        ensures
            text@ == error_text(self@),
    {
        match self {
            ConfigError::InvalidPath => String::from_str("Could not find a valid config file"),
            ConfigError::MalformedConfig(m) => {
                let mut text = String::from_str("Malformed config file: `");
                text.append(m.as_str());
                text.append("`");
                text
            },
            ConfigError::IOError(m) => {
                let mut text = String::from_str("IO error occurred: `");
                text.append(m.as_str());
                text.append("`");
                text
            },
        }
    }
}

/// The settings that hold when nothing is configured.
pub open spec fn default_view() -> ConfigView {
    ConfigView {
        workspaces: 10,
        keyboard_layout: "us"@,
        keyboard_variant: ""@,
    }
}

/// Keyboard layout used when the configuration does not name one.
pub fn default_layout() -> (layout: String)
    ensures
        layout@ == "us"@,
{
    String::from_str("us")
}

/// Keyboard layout variant used when the configuration does not name one.
pub fn default_variant() -> (variant: String)
    ensures
        variant@ == ""@,
{
    String::from_str("")
}

/// Number of workspaces used when the configuration does not name one.
pub fn default_num_workspaces() -> (n: u32)
    ensures
        n == 10,
{
    10
}

impl Default for WaysightConfig {
    fn default() -> (config: WaysightConfig)
        ensures
            config@ == default_view(),
    {
        WaysightConfig {
            workspaces: default_num_workspaces(),
            input: InputConfig {
                keyboard_layout: default_layout(),
                keyboard_variant: default_variant(),
            },
        }
    }
}

} // verus!
