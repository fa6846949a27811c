//! The refresh coordinator: when the log is read again, and what a reading
//! does to the state that is shown.
//!
//! The caller owns the clock and the file. On each tick it asks whether a
//! check is due, looks at the file, asks whether to read it again, reads
//! it, and hands in the outcome.

use crate::event::{event_views, opt_text, EventView, PlayerEvent};
use crate::ingest::{ParsedLog, ParsedLogView};
use crate::settings::{save_last_log_path, SettingWrite, SettingWriteView, LAST_PATH_FILE};
use crate::text::{trim, trimmed};
use crate::timestamp::Timestamp;
use vstd::prelude::*;
use vstd::string::*;

verus! {

/// The log that is opened where no path was kept.
pub const DEFAULT_LOG_PATH: &'static str = "Game.log";

/// The time between two looks at the file, in milliseconds.
pub const AUTO_REFRESH_INTERVAL_MS: u64 = 2000;

/// What is shown where no path is given.
pub const NO_FILE_MESSAGE: &'static str = "No log file selected.";

/// What is shown where the chosen path is no text.
pub const INVALID_PATH_MESSAGE: &'static str = "Selected path contains invalid UTF-8.";

/// The state that the timeline shows and the coordinator keeps.
#[derive(Debug)]
pub struct LogState {
    /// The path as the user gave it.
    pub file_path_input: String,
    /// The events of the last reading that succeeded, newest first.
    pub events: Vec<PlayerEvent>,
    /// The name of the player whose events are left out.
    pub ignored_player: String,
    /// Whether the user has set that name; a nickname found in the log
    /// replaces only a name that the user has not set.
    pub ignored_player_user_override: bool,
    /// Why the last reading failed, if it did.
    pub load_error: Option<String>,
    /// The time between two looks at the file, in milliseconds.
    pub auto_refresh_interval_ms: u64,
    /// When the file was looked at last, on the caller's clock.
    pub last_auto_check_ms: u64,
    /// The file's time of modification at the last reading.
    pub last_modified: Option<Timestamp>,
}

/// The state, its events and strings as views.
pub struct LogStateView {
    pub file_path_input: Seq<char>,
    pub events: Seq<EventView>,
    pub ignored_player: Seq<char>,
    pub ignored_player_user_override: bool,
    pub load_error: Option<Seq<char>>,
    pub auto_refresh_interval_ms: u64,
    pub last_auto_check_ms: u64,
    pub last_modified: Option<Timestamp>,
}

impl View for LogState {
    type V = LogStateView;

    open spec fn view(&self) -> LogStateView {
        LogStateView {
            file_path_input: self.file_path_input@,
            events: event_views(self.events@),
            ignored_player: self.ignored_player@,
            ignored_player_user_override: self.ignored_player_user_override,
            load_error: opt_text(self.load_error),
            auto_refresh_interval_ms: self.auto_refresh_interval_ms,
            last_auto_check_ms: self.last_auto_check_ms,
            last_modified: self.last_modified,
        }
    }
}

/// What the caller found when it looked at the file.
#[derive(Clone, Copy, Debug, PartialEq, Eq, Structural)]
pub struct FileProbe {
    /// Whether the path resolves to nothing.
    pub path_is_empty: bool,
    /// Whether there is a file at the path.
    pub exists: bool,
    /// The file's time of modification, where it could be had.
    pub modified: Option<Timestamp>,
}

/// How a reading of the log ended.
#[derive(Debug)]
pub enum ReloadOutcome {
    /// The path resolves to nothing.
    NoPath,
    /// The log was read.
    Parsed {
        log: ParsedLog,
        /// The path that was read, as text.
        path: String,
        /// Whether the file's metadata could be had.
        metadata_read: bool,
        /// The file's time of modification, where it could be had.
        modified: Option<Timestamp>,
    },
    /// The log could not be opened or read; the text says why.
    Failed(String),
}

/// The outcome of a reading, its log and strings as views.
pub enum ReloadOutcomeView {
    NoPath,
    Parsed { log: ParsedLogView, path: Seq<char>, metadata_read: bool, modified: Option<Timestamp> },
    Failed(Seq<char>),
}

impl View for ReloadOutcome {
    type V = ReloadOutcomeView;

    open spec fn view(&self) -> ReloadOutcomeView {
        match *self {
            ReloadOutcome::NoPath => ReloadOutcomeView::NoPath,
            ReloadOutcome::Parsed { log, path, metadata_read, modified } => {
                ReloadOutcomeView::Parsed { log: log@, path: path@, metadata_read, modified }
            },
            ReloadOutcome::Failed(why) => ReloadOutcomeView::Failed(why@),
        }
    }
}

/// The state at the start of a run, from the settings that were kept.
pub open spec fn initial_state(
    last_path: Option<Seq<char>>,
    ignored: Option<Seq<char>>,
    now_ms: u64,
) -> LogStateView {
    LogStateView {
        file_path_input: match last_path {
            Some(p) => p,
            None => DEFAULT_LOG_PATH@,
        },
        events: Seq::empty(),
        ignored_player: match ignored {
            Some(name) => name,
            None => Seq::empty(),
        },
        ignored_player_user_override: ignored is Some,
        load_error: None,
        auto_refresh_interval_ms: AUTO_REFRESH_INTERVAL_MS,
        last_auto_check_ms: now_ms,
        last_modified: None,
    }
}

/// Whether a look at the file is due: the interval has passed since the
/// last one.
pub open spec fn is_due(state: LogStateView, now_ms: u64) -> bool {
    now_ms >= state.last_auto_check_ms && now_ms - state.last_auto_check_ms
        >= state.auto_refresh_interval_ms
}

/// Whether the file is to be read again: it is there, and its time of
/// modification is later than the one on record, or none is on record.
pub open spec fn wants_reload(state: LogStateView, probe: FileProbe) -> bool {
    !probe.path_is_empty && probe.exists && match probe.modified {
        Some(m) => match state.last_modified {
            Some(previous) => previous.before(m),
            None => true,
        },
        None => false,
    }
}

/// The ignored name after a reading that found this nickname: the trimmed
/// nickname, where the user has set no name and the nickname is not empty.
pub open spec fn ignored_after(state: LogStateView, nickname: Option<Seq<char>>) -> Seq<char> {
    match nickname {
        Some(n) => if !state.ignored_player_user_override && trimmed(n).len() > 0 {
            trimmed(n)
        } else {
            state.ignored_player
        },
        None => state.ignored_player,
    }
}

/// The state after a reading. Without a path nothing is shown. A reading
/// that succeeded replaces the events and clears the error. One that failed
/// leaves the events and shows the error.
pub open spec fn after_reload(state: LogStateView, outcome: ReloadOutcomeView, now_ms: u64)
    -> LogStateView {
    match outcome {
        ReloadOutcomeView::NoPath => LogStateView {
            events: Seq::empty(),
            load_error: Some(NO_FILE_MESSAGE@),
            last_modified: None,
            ..state
        },
        ReloadOutcomeView::Parsed { log, path, metadata_read, modified } => LogStateView {
            events: log.events,
            ignored_player: ignored_after(state, log.primary_nickname),
            load_error: None,
            last_modified: if metadata_read {
                modified
            } else {
                state.last_modified
            },
            last_auto_check_ms: now_ms,
            ..state
        },
        ReloadOutcomeView::Failed(why) => LogStateView {
            load_error: Some(why),
            last_auto_check_ms: now_ms,
            ..state
        },
    }
}

/// What a reading asks to be kept: after one that succeeded, the path
/// that was read.
pub open spec fn kept_after_reload(outcome: ReloadOutcomeView) -> Option<SettingWriteView> {
    match outcome {
        ReloadOutcomeView::Parsed { log, path, metadata_read, modified } => Some(
            SettingWriteView { file_name: LAST_PATH_FILE@, contents: path },
        ),
        _ => None,
    }
}

impl LogState {
    /// The state at the start of a run: the path and the ignored name that
    /// were kept, no events.
    pub fn new(last_path: Option<String>, ignored: Option<String>, now_ms: u64) -> (r: LogState)
        ensures
            r@ == initial_state(opt_text(last_path), opt_text(ignored), now_ms),
    {
        let file_path_input = match last_path {
            Some(p) => p,
            None => DEFAULT_LOG_PATH.to_owned(),
        };
        let (ignored_player, ignored_player_user_override) = match ignored {
            Some(name) => (name, true),
            None => (String::new(), false),
        };
        let r = LogState {
            file_path_input,
            events: Vec::new(),
            ignored_player,
            ignored_player_user_override,
            load_error: None,
            auto_refresh_interval_ms: AUTO_REFRESH_INTERVAL_MS,
            last_auto_check_ms: now_ms,
            last_modified: None,
        };
        assert(event_views(r.events@) =~= Seq::empty());
        r
    }

    /// Whether a look at the file is due at `now_ms`. Where it is, the look
    /// counts as taken.
    pub fn tick(&mut self, now_ms: u64) -> (due: bool)
        ensures
            due == is_due(old(self)@, now_ms),
            final(self)@ == (if due {
                LogStateView { last_auto_check_ms: now_ms, ..old(self)@ }
            } else {
                old(self)@
            }),
    {
        if now_ms < self.last_auto_check_ms || now_ms - self.last_auto_check_ms
            < self.auto_refresh_interval_ms {
            return false;
        }
        self.last_auto_check_ms = now_ms;
        true
    }

    /// Whether the file is to be read again, given what a look at it found.
    pub fn should_reload(&self, probe: &FileProbe) -> (r: bool)
        ensures
            r == wants_reload(self@, *probe),
    {
        if probe.path_is_empty || !probe.exists {
            return false;
        }
        match probe.modified {
            Some(m) => match &self.last_modified {
                Some(previous) => previous.is_before(&m),
                None => true,
            },
            None => false,
        }
    }

    /// Takes in the outcome of a reading, and says what is to be kept.
    pub fn reload(&mut self, outcome: ReloadOutcome, now_ms: u64) -> (keep: Option<SettingWrite>)
        ensures
            final(self)@ == after_reload(old(self)@, outcome@, now_ms),
            match keep {
                Some(w) => kept_after_reload(outcome@) == Some(w@),
                None => kept_after_reload(outcome@) is None,
            },
    {
        match outcome {
            ReloadOutcome::NoPath => {
                self.events = Vec::new();
                self.load_error = Some(NO_FILE_MESSAGE.to_owned());
                self.last_modified = None;
                assert(event_views(self.events@) =~= Seq::empty());
                None
            },
            ReloadOutcome::Parsed { log, path, metadata_read, modified } => {
                self.events = log.events;
                if !self.ignored_player_user_override {
                    match log.primary_nickname {
                        Some(nickname) => {
                            let trimmed = trim(nickname.as_str());
                            if !trimmed.as_str().is_empty() {
                                self.ignored_player = trimmed;
                            }
                        },
                        None => {},
                    }
                }
                self.load_error = None;
                if metadata_read {
                    self.last_modified = modified;
                }
                self.last_auto_check_ms = now_ms;
                Some(save_last_log_path(path.as_str()))
            },
            ReloadOutcome::Failed(why) => {
                self.load_error = Some(why);
                self.last_auto_check_ms = now_ms;
                None
            },
        }
    }

    /// Takes the file that the user picked: its path where it is text, else
    /// the error that it is none. Says whether the log is to be read.
    pub fn set_selected_file(&mut self, path: Option<&str>) -> (read: bool)
        ensures
            read == path is Some,
            final(self)@ == (match path {
                Some(p) => LogStateView { file_path_input: p@, ..old(self)@ },
                None => LogStateView { load_error: Some(INVALID_PATH_MESSAGE@), ..old(self)@ },
            }),
    {
        match path {
            Some(as_str) => {
                self.file_path_input = as_str.to_owned();
                true
            },
            None => {
                self.load_error = Some(INVALID_PATH_MESSAGE.to_owned());
                false
            },
        }
    }
}

/// Reading the same log twice in a row shows the same events: the second
/// reading changes neither the events nor the ignored name.
pub proof fn lemma_reload_twice(
    state: LogStateView,
    outcome: ReloadOutcomeView,
    first_ms: u64,
    second_ms: u64,
)
    requires
        outcome is Parsed,
    ensures
        after_reload(after_reload(state, outcome, first_ms), outcome, second_ms).events
            == after_reload(state, outcome, first_ms).events,
        after_reload(after_reload(state, outcome, first_ms), outcome, second_ms).ignored_player
            == after_reload(state, outcome, first_ms).ignored_player,
        after_reload(after_reload(state, outcome, first_ms), outcome, second_ms).load_error
            == after_reload(state, outcome, first_ms).load_error,
{
}

/// A reading that fails leaves the events that are shown.
pub proof fn lemma_failed_reload_keeps_events(state: LogStateView, why: Seq<char>, now_ms: u64)
    ensures
        after_reload(state, ReloadOutcomeView::Failed(why), now_ms).events == state.events,
        after_reload(state, ReloadOutcomeView::Failed(why), now_ms).load_error == Some(why),
{
}

} // verus!
