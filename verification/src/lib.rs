//! The engine of a terminal music player.
//!
//! - `lyric_parser`: time-stamped lyric text as a timeline, and the line to
//!   show at a moment.
//! - `player`: the engine as a state machine over plain values, with what
//!   holds of every run of it.
//! - `app`: the engine itself, one method for each step of the machine.
//! - `input`: keys and the text fields of the login form.
//! - `api_type`, `network`, `downloader`: the records of the music service,
//!   its addresses, and the ranges of a download.
//! - `labels`, `utils`, `text`: the lines that the screen shows, durations
//!   and numbers in decimal.
//!
//! The engine does no outside work itself. A step that needs the service,
//! the disk or the sound card names that work as an effect; the host does it
//! and hands the outcome back.
pub mod text;
pub mod lyric_parser;
pub mod api_type;
pub mod input;
pub mod player;
pub mod app;
pub mod utils;
pub mod network;
pub mod downloader;
pub mod labels;
