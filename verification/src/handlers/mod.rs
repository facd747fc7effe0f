//! What the compositor does when something happens.
pub mod input;
pub mod seat;
pub mod wsoutput;
