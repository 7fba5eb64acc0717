//! A small library behind an interactive command picker.
//!
//! From one input sentence it derives three candidate command strings,
//! models the arrow-key selection loop as a state machine, models the
//! menu as a list of styled lines, and extracts the shell payload from
//! the chosen entry.

pub mod menu;
pub mod options;
pub mod session;
