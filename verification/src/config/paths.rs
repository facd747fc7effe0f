//! Where the configuration file is looked for.
use vstd::prelude::*;
use vstd::string::*;
use crate::config::ConfigError;

verus! {

/// What the process environment says about configuration directories.
/// A variable that is unset, or not valid Unicode, is `None`.
pub struct ConfigEnv {
    /// `XDG_CONFIG_HOME`
    pub xdg_config_home: Option<String>,
    /// `HOME`
    pub home: Option<String>,
}

/// The file's path below the XDG configuration directory.
pub open spec fn xdg_relative() -> Seq<char> {
    "waysight/config.toml"@
}

/// The file's path below the home directory.
pub open spec fn home_relative() -> Seq<char> {
    ".config/waysight/config.toml"@
}

/// A relative path adjoined to a directory: one separator between the two,
/// unless the directory is empty or already ends with one.
pub open spec fn join_spec(base: Seq<char>, relative: Seq<char>) -> Seq<char> {
    if base.len() == 0 || base.last() == '/' {
        base + relative
    } else {
        base + seq!['/'] + relative
    }
}

/// The path of the configuration file: the one the user gave, else the one
/// below `XDG_CONFIG_HOME`, else the one below `HOME`, else none.
pub open spec fn config_path_spec(
    user_set_path: Option<Seq<char>>,
    xdg_config_home: Option<Seq<char>>,
    home: Option<Seq<char>>,
) -> Option<Seq<char>> {
    match user_set_path {
        Some(path) => Some(path),
        None => match xdg_config_home {
            Some(dir) => Some(join_spec(dir, xdg_relative())),
            None => match home {
                Some(dir) => Some(join_spec(dir, home_relative())),
                None => None,
            },
        },
    }
}

/// The view of an optional string.
pub open spec fn opt_view(s: Option<String>) -> Option<Seq<char>> {
    match s {
        Some(s) => Some(s@),
        None => None,
    }
}

impl ConfigEnv {
    /// The path that this environment gives for a user's choice.
    pub open spec fn path_for(&self, user_set_path: Option<String>) -> Option<Seq<char>> {
        config_path_spec(opt_view(user_set_path), opt_view(self.xdg_config_home), opt_view(self.home))
    }
}

/// Adjoins a relative path to a directory.
pub fn join(base: &str, relative: &str) -> (path: String)
    ensures
        path@ == join_spec(base@, relative@),
{
    let n = base.unicode_len();
    let mut path = String::from_str(base);
    if n > 0 && base.get_char(n - 1) != '/' {
        proof {
            reveal_strlit("/");
        }
        path.append("/");
    }
    path.append(relative);
    path
}

/// Works out the path of the configuration file.
///
/// The user's own path wins; then comes `waysight/config.toml` below
/// `XDG_CONFIG_HOME`, then `.config/waysight/config.toml` below `HOME`. With
/// none of the three there is no path, which is `ConfigError::InvalidPath`.
pub fn config_path(user_set_path: &Option<String>, env: &ConfigEnv) -> (r: Result<
    String,
    ConfigError,
>)
    ensures
        match env.path_for(*user_set_path) {
            Some(path) => r matches Ok(p) && p@ == path,
            None => r matches Err(ConfigError::InvalidPath),
        },
{
    match user_set_path {
        Some(path) => Ok(path.clone()),
        None => match &env.xdg_config_home {
            Some(dir) => Ok(join(dir.as_str(), "waysight/config.toml")),
            None => match &env.home {
                Some(dir) => Ok(join(dir.as_str(), ".config/waysight/config.toml")),
                None => Err(ConfigError::InvalidPath),
            },
        },
    }
}

} // verus!
