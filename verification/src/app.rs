//! The state of the application: the screen it is on, what has been typed,
//! the values gathered so far, and the connection to the database.

use vstd::prelude::*;

use crate::datetime::DateTime;

verus! {

#[verifier::external_type_specification]
#[verifier::external_body]
pub struct ExConnection(rusqlite::Connection);

/// The screen that the application shows.
#[derive(Clone, Copy, Debug, PartialEq, Eq, Structural)]
pub enum UiMode {
    Menu,
    WritingEnterTime,
    WritingExitTime,
    CalculatingStart,
    CalculatingEnd,
    CalculatingShowResult,
}

/// Settings of the application.
pub struct Config {
    pub db_path: String,
}

/// The whole state of the application. `calculation_result` holds the total
/// of a calculation in seconds; it is shown in hours.
pub struct AppState {
    pub config: Config,
    pub db: rusqlite::Connection,
    pub ui_mode: UiMode,
    pub input_buffer: String,
    pub temporal_enter_time: Option<DateTime>,
    pub temporal_start_date: Option<DateTime>,
    pub calculation_result: Option<i128>,
    pub should_quit: bool,
    pub error_message: Option<String>,
}

/// The state of the interface as plain values: everything of an
/// [`AppState`] but its settings and its connection.
pub struct UiState {
    pub mode: UiMode,
    pub buffer: Seq<char>,
    pub enter_time: Option<DateTime>,
    pub start_date: Option<DateTime>,
    pub result: Option<int>,
    pub quit: bool,
    pub error: Option<Seq<char>>,
}

impl View for AppState {
    type V = UiState;

    open spec fn view(&self) -> UiState {
        UiState {
            mode: self.ui_mode,
            buffer: self.input_buffer@,
            enter_time: self.temporal_enter_time,
            start_date: self.temporal_start_date,
            result: match self.calculation_result {
                Some(r) => Some(r as int),
                None => None,
            },
            quit: self.should_quit,
            error: match self.error_message {
                Some(m) => Some(m@),
                None => None,
            },
        }
    }
}

/// The state in which the application starts.
pub open spec fn initial_ui() -> UiState {
    UiState {
        mode: UiMode::Menu,
        buffer: Seq::empty(),
        enter_time: None,
        start_date: None,
        result: None,
        quit: false,
        error: None,
    }
}

impl AppState {
    /// A fresh state on the menu, holding the given connection.
    pub fn new(connection: rusqlite::Connection) -> (res: Self)
        ensures
            res@ == initial_ui(),
            res.db == connection,
            res.config.db_path@ == "time_tracker.db"@,
    {
        AppState {
            config: Config { db_path: String::from_str("time_tracker.db") },
            db: connection,
            ui_mode: UiMode::Menu,
            input_buffer: String::new(),
            temporal_enter_time: None,
            temporal_start_date: None,
            calculation_result: None,
            should_quit: false,
            error_message: None,
        }
    }

    /// Quit the application by setting the `should_quit` flag to true.
    pub fn quit(&mut self)
        ensures
            final(self)@ == (UiState { quit: true, ..old(self)@ }),
            final(self).db == old(self).db,
            final(self).config == old(self).config,
    {
        self.should_quit = true;
    }
}

} // verus!
