//! Helpers that more than one part of the compositor uses.
pub mod text;
pub mod workspaces;
