//! Control logic of a frameless desktop widget that shows a web calendar.
//!
//! The calendar is refreshed out of sight: while one window shows it, another loads
//! the next generation and takes over once it is ready. This crate decides what is
//! to be done and when; a desktop shell performs it and hands back the results.
//!
//! * [`window`]: the two windows.
//! * [`refresh_state`]: which window is active, which attempt is pending, how long to
//!   wait.
//! * [`handoff`], [`attempt`], [`coordinator`]: the decisions of a handoff, of one
//!   attempt, and of the loop around all attempts, over the questions and answers of
//!   [`action`].
//! * [`refresh_url`]: URLs that carry the token of an attempt, over the calls in
//!   [`url_query`] and the lengths in [`url_size`], with numbers in [`decimal`] text.
//! * [`setup`], [`shell`]: starting up, and reacting to keys, pages and the tray menu.

pub mod action;
pub mod attempt;
pub mod coordinator;
pub mod decimal;
pub mod handoff;
pub mod refresh_state;
pub mod refresh_url;
pub mod setup;
pub mod shell;
mod text;
pub mod url_query;
pub mod url_size;
pub mod window;
