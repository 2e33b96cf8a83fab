//! ototune: a terminal player for MPD, tailored to daily listening and
//! audio immersion.
//!
//! This crate holds the player's state and every decision it makes, each
//! with a contract that states its result:
//! - `app`: the interface state, the fuzzy search filter, selection movement and
//!   what is remembered between runs;
//! - `keys`: what each key press does, and how the outcomes of MPD's work
//!   are taken back into the state;
//! - `browser`: which entries of an MPD directory listing are shown, and in
//!   which order;
//! - `mpd_client`: the player's picture of MPD and the decisions behind the
//!   commands it sends;
//! - `ui`: the texts and figures the screen shows;
//! - `state`, `text`, `format`, `clock`: remembered settings, text and
//!   number formatting, and the clock;
//! - `laws`: properties that hold across these operations.
//!
//! Talking to MPD, the terminal and the disk is left to the binary.

pub mod app;
pub mod browser;
pub mod clock;
pub mod format;
pub mod keys;
pub mod laws;
pub mod mpd_client;
pub mod state;
pub mod text;
pub mod ui;
