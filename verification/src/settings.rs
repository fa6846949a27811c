//! The two settings that outlive a run: the log that was open last and the
//! name of the ignored player.
//!
//! Each is kept in a small text file. Reading and writing the files is the
//! caller's part; what is read from a file's contents and what is written
//! to it is decided here.

use crate::event::opt_text;
use crate::text::{from_chars_range, to_chars, trim, trimmed};
use vstd::prelude::*;
use vstd::string::*;

verus! {

/// The file that holds the path of the log that was open last.
pub const LAST_PATH_FILE: &'static str = "last_log_path.txt";

/// The file that holds the name of the ignored player.
pub const IGNORED_PLAYER_FILE: &'static str = "ignored_player.txt";

/// The directory, below the user's configuration directory, that holds the
/// settings where the platform names none.
pub const SETTINGS_DIR: &'static str = "sc_log_analyzer";

/// A file's contents without the line feeds and carriage returns at its
/// end.
pub open spec fn stored_value(contents: Seq<char>) -> Seq<char>
    decreases contents.len(),
{
    if contents.len() > 0 && (contents.last() == '\n' || contents.last() == '\r') {
        stored_value(contents.drop_last())
    } else {
        contents
    }
}

/// The value that a settings file holds: its contents without the line
/// endings at its end.
pub fn read_setting(contents: &str) -> (r: String)
    ensures
        r@ == stored_value(contents@),
{
    let v = to_chars(contents);
    let mut end: usize = v.len();
    assert(v@.subrange(0, end as int) == v@);
    while end > 0 && (v[end - 1] == '\n' || v[end - 1] == '\r')
        invariant
            end <= v.len(),
            stored_value(v@) == stored_value(v@.subrange(0, end as int)),
        decreases end,
    {
        assert(v@.subrange(0, end as int).drop_last() == v@.subrange(0, end - 1));
        end -= 1;
    }
    from_chars_range(&v, 0, end)
}

/// The path of the log that was open last, as the contents of its file
/// give it: the stored value, trimmed, unless nothing is left of it.
pub open spec fn last_log_path_of(contents: Option<Seq<char>>) -> Option<Seq<char>> {
    match contents {
        Some(c) => if trimmed(stored_value(c)).len() == 0 {
            None
        } else {
            Some(trimmed(stored_value(c)))
        },
        None => None,
    }
}

/// The path of the log that was open last, from the contents of its file;
/// `None` stands for a file that could not be read.
pub fn load_last_log_path(contents: Option<&str>) -> (r: Option<String>)
    ensures
        opt_text(r) == last_log_path_of(
            match contents {
                Some(c) => Some(c@),
                None => None,
            },
        ),
{
    match contents {
        Some(c) => {
            let trimmed = trim(read_setting(c).as_str());
            if trimmed.as_str().is_empty() {
                None
            } else {
                Some(trimmed)
            }
        },
        None => None,
    }
}

/// The name of the ignored player, as the contents of its file give it:
/// the stored value, which may be empty.
pub open spec fn ignored_player_of(contents: Option<Seq<char>>) -> Option<Seq<char>> {
    match contents {
        Some(c) => Some(stored_value(c)),
        None => None,
    }
}

/// The name of the ignored player, from the contents of its file; `None`
/// stands for a file that could not be read.
pub fn load_ignored_player(contents: Option<&str>) -> (r: Option<String>)
    ensures
        opt_text(r) == ignored_player_of(
            match contents {
                Some(c) => Some(c@),
                None => None,
            },
        ),
{
    match contents {
        Some(c) => Some(read_setting(c)),
        None => None,
    }
}

/// What is to be written, and to which settings file.
#[derive(Debug, PartialEq, Eq)]
pub struct SettingWrite {
    pub file_name: String,
    pub contents: String,
}

/// What is to be written, its strings as sequences of characters.
pub struct SettingWriteView {
    pub file_name: Seq<char>,
    pub contents: Seq<char>,
}

impl View for SettingWrite {
    type V = SettingWriteView;

    open spec fn view(&self) -> SettingWriteView {
        SettingWriteView { file_name: self.file_name@, contents: self.contents@ }
    }
}

/// What keeps the path of the open log: the path as it is, in the file of
/// the last path.
pub fn save_last_log_path(path: &str) -> (r: SettingWrite)
    ensures
        r@ == (SettingWriteView { file_name: LAST_PATH_FILE@, contents: path@ }),
{
    SettingWrite { file_name: LAST_PATH_FILE.to_owned(), contents: path.to_owned() }
}

/// What keeps the name of the ignored player: the name as it is, in the
/// file of the ignored player.
pub fn save_ignored_player(value: &str) -> (r: SettingWrite)
    ensures
        r@ == (SettingWriteView { file_name: IGNORED_PLAYER_FILE@, contents: value@ }),
{
    SettingWrite { file_name: IGNORED_PLAYER_FILE.to_owned(), contents: value.to_owned() }
}

/// Whether the ignored player's name is to be kept: only once the user has
/// set it.
pub fn persist_ignored_player(user_override: bool, ignored_player: &str) -> (r: Option<
    SettingWrite,
>)
    ensures
        match r {
            Some(w) => user_override && w@ == (SettingWriteView {
                file_name: IGNORED_PLAYER_FILE@,
                contents: ignored_player@,
            }),
            None => !user_override,
        },
{
    if user_override {
        Some(save_ignored_player(ignored_player))
    } else {
        None
    }
}

} // verus!
