//! Core logic of the Waysight compositor.
use vstd::prelude::*;

pub mod args;
pub mod backend;
pub mod config;
pub mod handlers;
pub mod rendering;
pub mod state;
pub mod utils;

verus! {

/// What the user asked for on the command line.
pub struct UserData {
    /// The configuration file to read, if one was named.
    pub config_path: Option<String>,
    /// The backend to run, if one was named.
    pub backend: Option<String>,
}

/// A user's choices as mathematical values.
pub struct UserDataView {
    pub config_path: Option<Seq<char>>,
    pub backend: Option<Seq<char>>,
}

impl View for UserData {
    type V = UserDataView;

    open spec fn view(&self) -> UserDataView {
        UserDataView {
            config_path: match self.config_path {
                Some(path) => Some(path@),
                None => None,
            },
            backend: match self.backend {
                Some(name) => Some(name@),
                None => None,
            },
        }
    }
}

impl UserData {
    /// No choices: everything is worked out from the environment.
    pub fn new() -> (data: UserData)
        ensures
            data@ == (UserDataView { config_path: None, backend: None }),
    {
        UserData { config_path: None, backend: None }
    }
}

} // verus!
