//! The logic of a terminal application served over SSH: a shared counter,
//! a navigation sidebar and a small collection of games (Wordle and Snake),
//! together with the byte-level input parser that turns terminal input into
//! key events.
//!
//! Everything that draws to the terminal or talks to the network lives in the
//! accompanying application crate; this crate decides what happens on each key
//! press and what each screen shows.

pub mod keys;
pub mod types;
pub mod mouse;
pub mod input;
pub mod words;
pub mod text;
pub mod wordle;
pub mod sidebar;
pub mod games;
pub mod snake;
pub mod counter;
pub mod client;
pub mod session;
