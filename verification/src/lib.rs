//! Colors of the outer terminal.
//!
//! A terminal application that wants to blend into the terminal hosting it
//! asks that terminal for its foreground and background color with the
//! OSC 10 and OSC 11 escape sequences, reads the reply from its own input
//! and keeps the answer in a cache for the rest of the process.
//!
//! This crate holds the rules of that exchange, each with a proved contract:
//! the bytes of a query, the detection of the end of a reply, the parsing of
//! a reply into an 8-bit RGB triple, the bounded dialogue with a terminal that
//! may never answer, the cache, and the bridge that turns a notification of
//! the operating system into a theme-change event. The crate performs no
//! input or output itself: the dialogue and the bridge are state machines
//! whose actions the embedding program carries out.
//!
//! The modules, from the bytes up:
//!
//! - [`utf8`], [`hex`] and [`response`] read a reply; [`response_laws`] says
//!   which replies report which color.
//! - [`osc`] builds a query and recognizes the end of a reply.
//! - [`cache`] keeps the colors last found.
//! - [`engine`] conducts a query; [`engine_laws`] and [`engine_runs`] say
//!   what holds of each of its steps and of whole runs.
//! - [`bridge`] announces a change of theme.

pub mod bridge;
pub mod cache;
pub mod colors;
pub mod engine;
pub mod engine_laws;
pub mod engine_runs;
pub mod hex;
pub mod osc;
pub mod response;
pub mod response_laws;
pub mod utf8;

pub use bridge::{BridgeAction, BridgeEvent, BridgePhase, StopReason, ThemeBridge};
pub use cache::{
    colors_initialized, get_outer_bg, get_outer_colors, get_outer_fg, set_outer_colors, ColorCache,
};
pub use colors::{Rgb, TerminalColors, ThemeChangeEvent};
pub use engine::{
    query_outer_terminal_colors, refresh_outer_colors, Channel, ColorQuery, QueryAction, QueryEvent,
    QueryPhase, ReadOutcome,
};
pub use hex::parse_hex_component;
pub use response::parse_osc_color_response;
