//! A timeline of game events, read from the game's log.
//!
//! The log is a text file to which the game adds lines. The library reads
//! its lines, tells the events among them by fixed grammars, puts them in
//! order, and selects those to show. Every function states what it returns
//! over the sequences of characters, bytes and events that its arguments
//! stand for, and Verus proves the statement.
//!
//! Reading files, the clock, the network and the window are the caller's.

pub mod event;
pub mod filter;
pub mod grammar;
pub mod ingest;
pub mod lookup;
pub mod path;
pub mod player_info;
pub mod refresh;
pub mod render;
pub mod settings;
pub mod text;
pub mod timeline;
pub mod timestamp;
