//! What a key press does to the state of the application.
//!
//! A key press either changes the state at once or asks for work on the
//! database: registering a period, or summing the periods of a range. The
//! caller performs that work and hands its outcome back to
//! [`AppState::finish_register`] or [`AppState::finish_calculation`].

use vstd::prelude::*;

use crate::app::{AppState, UiMode, UiState};
use crate::datetime::{
    chrono_parse_date, chrono_parse_datetime, input_date_format, input_datetime_format,
    parse_naive_date, parse_naive_datetime, Date, DateTime,
};
use crate::error::{AppError, AppResult};
use crate::text::{pop_char, push_char};

verus! {

/// The key of a key event.
#[derive(Clone, Copy, Debug, PartialEq, Eq, Structural)]
pub enum KeyCode {
    Char(char),
    Enter,
    Esc,
    Backspace,
    Other,
}

/// Whether a key went down, repeats, or went up.
#[derive(Clone, Copy, Debug, PartialEq, Eq, Structural)]
pub enum KeyEventKind {
    Press,
    Repeat,
    Release,
}

#[derive(Clone, Copy, Debug, PartialEq, Eq, Structural)]
pub struct KeyEvent {
    pub code: KeyCode,
    pub kind: KeyEventKind,
}

/// An event of the terminal: a key, or anything else (resizing, focus, mouse).
#[derive(Clone, Copy, Debug, PartialEq, Eq, Structural)]
pub enum Event {
    Key(KeyEvent),
    Other,
}

/// Work on the database that a key press asks for.
#[derive(Clone, Copy, Debug, PartialEq, Eq, Structural)]
pub enum Action {
    Nothing,
    /// Store the period from `enter` to `exit`.
    RegisterPeriod { enter: DateTime, exit: DateTime },
    /// Sum the periods that lie between `from` and `to`.
    CalculateHours { from: DateTime, to: DateTime },
}

pub open spec fn datetime_error_message() -> Seq<char> {
    "Invalid date-time format. Please use YYYY-MM-DD HH:MM."@
}

pub open spec fn date_error_message() -> Seq<char> {
    "Invalid date format. Please use YYYY-MM-DD."@
}

pub open spec fn missing_start_message() -> Seq<char> {
    "Invalid state: Start date not set"@
}

/// The first second of a date.
pub open spec fn day_start(d: Date) -> DateTime {
    d.at_spec(0, 0, 0)->Some_0
}

/// The last second of a date.
pub open spec fn day_end(d: Date) -> DateTime {
    d.at_spec(23, 59, 59)->Some_0
}

/// The state after switching to `mode` with an empty input.
pub open spec fn go_to(s: UiState, mode: UiMode) -> UiState {
    UiState { mode, buffer: Seq::empty(), ..s }
}

/// The state with an error message shown.
pub open spec fn show_error(s: UiState, msg: Seq<char>) -> UiState {
    UiState { error: Some(msg), ..s }
}

/// Typing into the input: a character is appended, backspace removes the
/// last character, other keys change nothing.
pub open spec fn edit(s: UiState, code: KeyCode) -> UiState {
    match code {
        KeyCode::Char(c) => UiState { buffer: s.buffer.push(c), ..s },
        KeyCode::Backspace => if s.buffer.len() > 0 {
            UiState { buffer: s.buffer.drop_last(), ..s }
        } else {
            s
        },
        _ => s,
    }
}

pub open spec fn menu_step(s: UiState, code: KeyCode) -> UiState {
    match code {
        KeyCode::Char('q') => UiState { quit: true, ..s },
        KeyCode::Char('e') => go_to(s, UiMode::WritingEnterTime),
        KeyCode::Char('c') => go_to(s, UiMode::CalculatingStart),
        _ => s,
    }
}

pub open spec fn enter_time_step(s: UiState, code: KeyCode) -> UiState {
    match code {
        KeyCode::Esc => go_to(s, UiMode::Menu),
        KeyCode::Enter => match chrono_parse_datetime(s.buffer, input_datetime_format()) {
            Some(d) => UiState { enter_time: Some(d), ..go_to(s, UiMode::WritingExitTime) },
            None => show_error(s, datetime_error_message()),
        },
        _ => edit(s, code),
    }
}

pub open spec fn exit_time_step(s: UiState, code: KeyCode) -> (UiState, Action) {
    match code {
        KeyCode::Esc => (go_to(s, UiMode::Menu), Action::Nothing),
        KeyCode::Enter => match s.enter_time {
            Some(enter) => match chrono_parse_datetime(s.buffer, input_datetime_format()) {
                Some(exit) => (s, Action::RegisterPeriod { enter, exit }),
                None => (show_error(s, datetime_error_message()), Action::Nothing),
            },
            None => (s, Action::Nothing),
        },
        _ => (edit(s, code), Action::Nothing),
    }
}

pub open spec fn start_date_step(s: UiState, code: KeyCode) -> UiState {
    match code {
        KeyCode::Esc => go_to(s, UiMode::Menu),
        KeyCode::Enter => match chrono_parse_date(s.buffer, input_date_format()) {
            Some(d) => UiState { start_date: Some(day_start(d)), ..go_to(s, UiMode::CalculatingEnd) },
            None => show_error(s, date_error_message()),
        },
        _ => edit(s, code),
    }
}

pub open spec fn end_date_step(s: UiState, code: KeyCode) -> (UiState, Action) {
    match code {
        KeyCode::Esc => (go_to(s, UiMode::Menu), Action::Nothing),
        KeyCode::Enter => match s.start_date {
            Some(from) => match chrono_parse_date(s.buffer, input_date_format()) {
                Some(d) => (s, Action::CalculateHours { from, to: day_end(d) }),
                None => (show_error(s, date_error_message()), Action::Nothing),
            },
            None => (show_error(s, missing_start_message()), Action::Nothing),
        },
        _ => (edit(s, code), Action::Nothing),
    }
}

pub open spec fn result_step(s: UiState, code: KeyCode) -> UiState {
    match code {
        KeyCode::Esc | KeyCode::Enter => UiState {
            result: None,
            start_date: None,
            ..go_to(s, UiMode::Menu)
        },
        _ => s,
    }
}

/// A key press with no error message on the screen.
pub open spec fn key_step(s: UiState, code: KeyCode) -> (UiState, Action) {
    match s.mode {
        UiMode::Menu => (menu_step(s, code), Action::Nothing),
        UiMode::WritingEnterTime => (enter_time_step(s, code), Action::Nothing),
        UiMode::WritingExitTime => exit_time_step(s, code),
        UiMode::CalculatingStart => (start_date_step(s, code), Action::Nothing),
        UiMode::CalculatingEnd => end_date_step(s, code),
        UiMode::CalculatingShowResult => (result_step(s, code), Action::Nothing),
    }
}

/// What an event does: the next state and the work it asks for. Releases of
/// keys and events other than keys change nothing; while an error message is
/// shown, Enter and Esc dismiss it and other keys change nothing.
pub open spec fn step(s: UiState, ev: Event) -> (UiState, Action) {
    match ev {
        Event::Other => (s, Action::Nothing),
        Event::Key(k) => if k.kind == KeyEventKind::Release {
            (s, Action::Nothing)
        } else if s.error is Some {
            match k.code {
                KeyCode::Enter | KeyCode::Esc => (UiState { error: None, ..s }, Action::Nothing),
                _ => (s, Action::Nothing),
            }
        } else {
            key_step(s, k.code)
        },
    }
}

/// The state once the database has answered a request to register a period.
pub open spec fn register_done(s: UiState, outcome: AppResult<()>) -> UiState {
    match outcome {
        Ok(_) => UiState { enter_time: None, ..go_to(s, UiMode::Menu) },
        Err(e) => show_error(s, e.message()),
    }
}

/// The state once the database has answered a request for a total.
pub open spec fn calculation_done(s: UiState, outcome: AppResult<i128>) -> UiState {
    match outcome {
        Ok(total) => UiState {
            result: Some(total as int),
            ..go_to(s, UiMode::CalculatingShowResult)
        },
        Err(e) => show_error(s, e.message()),
    }
}

/// Every date-time that the state holds is a valid one.
pub open spec fn holds_valid_values(s: UiState) -> bool {
    &&& (s.enter_time matches Some(d) ==> d.is_valid())
    &&& (s.start_date matches Some(d) ==> d.is_valid())
}

/// Every date-time that an action carries is a valid one.
pub open spec fn action_is_valid(a: Action) -> bool {
    match a {
        Action::Nothing => true,
        Action::RegisterPeriod { enter, exit } => enter.is_valid() && exit.is_valid(),
        Action::CalculateHours { from, to } => from.is_valid() && to.is_valid(),
    }
}

/// The facts that tie the values of a state to its screen: the menu has no
/// typed text, the exit-time screen has an enter time, the end-date screen
/// has a start, and the result screen has a total.
pub open spec fn consistent(s: UiState) -> bool {
    &&& s.mode == UiMode::Menu ==> s.buffer.len() == 0
    &&& s.mode == UiMode::WritingExitTime ==> s.enter_time is Some
    &&& s.mode == UiMode::CalculatingEnd ==> s.start_date is Some
    &&& s.mode == UiMode::CalculatingShowResult ==> s.result is Some
}

/// A screen in which text is typed.
pub open spec fn is_input_mode(mode: UiMode) -> bool {
    mode == UiMode::WritingEnterTime || mode == UiMode::WritingExitTime || mode
        == UiMode::CalculatingStart || mode == UiMode::CalculatingEnd
}

/// A key going down.
pub open spec fn press(code: KeyCode) -> Event {
    Event::Key(KeyEvent { code, kind: KeyEventKind::Press })
}

/// The application starts in a consistent state.
pub proof fn initial_state_is_consistent()
    ensures
        consistent(crate::app::initial_ui()),
{
}

/// Every event keeps a state consistent.
pub proof fn step_keeps_consistency(s: UiState, ev: Event)
    requires
        consistent(s),
    ensures
        consistent(step(s, ev).0),
{
}

/// The outcome of registering a period, whatever it is, keeps a state
/// consistent.
pub proof fn register_done_keeps_consistency(s: UiState, outcome: AppResult<()>)
    requires
        consistent(s),
    ensures
        consistent(register_done(s, outcome)),
{
}

/// The outcome of a calculation, whatever it is, keeps a state consistent.
pub proof fn calculation_done_keeps_consistency(s: UiState, outcome: AppResult<i128>)
    requires
        consistent(s),
    ensures
        consistent(calculation_done(s, outcome)),
{
}

/// In a consistent state a key press only ever shows the message of a
/// badly written date or date-time: the message of a missing start date
/// never comes up.
pub proof fn only_format_errors_in_consistent_states(s: UiState, ev: Event)
    requires
        consistent(s),
        s.error is None,
    ensures
        step(s, ev).0.error is Some ==> step(s, ev).0.error == Some(datetime_error_message())
            || step(s, ev).0.error == Some(date_error_message()),
{
}

/// Releases of keys and events other than keys change nothing and ask for
/// nothing.
pub proof fn ignored_events_change_nothing(s: UiState, ev: Event)
    requires
        ev matches Event::Key(k) ==> k.kind == KeyEventKind::Release,
    ensures
        step(s, ev) == (s, Action::Nothing),
{
}

/// While an error message is shown, a key either dismisses the message
/// (Enter or Esc) and changes nothing else, or changes nothing at all; it
/// never asks for work.
pub proof fn error_message_blocks_keys(s: UiState, ev: Event)
    requires
        s.error is Some,
    ensures
        step(s, ev).1 == Action::Nothing,
        step(s, ev).0 == s || step(s, ev).0 == (UiState { error: None, ..s }),
{
}

/// Esc leads back to the menu, with the input emptied, from every screen
/// but the menu itself.
pub proof fn escape_returns_to_menu(s: UiState)
    requires
        s.error is None,
        s.mode != UiMode::Menu,
    ensures
        step(s, press(KeyCode::Esc)).0.mode == UiMode::Menu,
        step(s, press(KeyCode::Esc)).0.buffer.len() == 0,
        step(s, press(KeyCode::Esc)).1 == Action::Nothing,
{
}

/// In a screen in which text is typed, typing a character and then pressing
/// backspace gives back the state as it was.
pub proof fn backspace_undoes_typing(s: UiState, c: char)
    requires
        s.error is None,
        is_input_mode(s.mode),
    ensures
        step(step(s, press(KeyCode::Char(c))).0, press(KeyCode::Backspace)).0 == s,
{
    let typed = step(s, press(KeyCode::Char(c))).0;
    assert(typed.buffer == s.buffer.push(c));
    assert(typed.buffer.drop_last() =~= s.buffer);
}

/// Whenever the screen changes, the typed text is emptied.
pub proof fn changing_screen_empties_input(s: UiState, ev: Event)
    ensures
        step(s, ev).0.mode != s.mode ==> step(s, ev).0.buffer.len() == 0,
        forall|outcome: AppResult<()>|
            #[trigger] register_done(s, outcome).mode != s.mode ==> register_done(
                s,
                outcome,
            ).buffer.len() == 0,
        forall|outcome: AppResult<i128>|
            #[trigger] calculation_done(s, outcome).mode != s.mode ==> calculation_done(
                s,
                outcome,
            ).buffer.len() == 0,
{
}

/// Once the application is told to quit it stays so; and it is told so only
/// by `q` on the menu.
pub proof fn quitting_is_final(s: UiState, ev: Event)
    ensures
        s.quit ==> step(s, ev).0.quit,
        !s.quit && step(s, ev).0.quit ==> s.mode == UiMode::Menu && s.error is None && (
        ev matches Event::Key(k) && k.code == KeyCode::Char('q') && k.kind
            != KeyEventKind::Release),
        forall|outcome: AppResult<()>| #[trigger] register_done(s, outcome).quit == s.quit,
        forall|outcome: AppResult<i128>| #[trigger] calculation_done(s, outcome).quit == s.quit,
{
}

/// A key press that asks for work on the database changes nothing yet; the
/// period it registers begins at the enter time already taken, and the range
/// it sums begins at the start already taken.
pub proof fn work_is_asked_before_any_change(s: UiState, ev: Event)
    ensures
        step(s, ev).1 != Action::Nothing ==> step(s, ev).0 == s,
        step(s, ev).1 matches Action::RegisterPeriod { enter, exit } ==> s.mode
            == UiMode::WritingExitTime && s.enter_time == Some(enter) && Some(exit)
            == chrono_parse_datetime(s.buffer, input_datetime_format()),
        step(s, ev).1 matches Action::CalculateHours { from, to } ==> s.mode
            == UiMode::CalculatingEnd && s.start_date == Some(from) && (chrono_parse_date(
            s.buffer,
            input_date_format(),
        ) matches Some(d) && to == day_end(d)),
{
}

/// A key that goes down (or repeats) with the given code.
pub open spec fn pressed(k: KeyEvent, code: KeyCode) -> bool {
    k.code == code && k.kind != KeyEventKind::Release
}

/// The first second of the date `d`.
pub open spec fn first_second(d: Date) -> DateTime {
    DateTime { year: d.year, month: d.month, day: d.day, hour: 0, minute: 0, second: 0, nanosecond: 0 }
}

/// The last second of the date `d`.
pub open spec fn last_second(d: Date) -> DateTime {
    DateTime {
        year: d.year,
        month: d.month,
        day: d.day,
        hour: 23,
        minute: 59,
        second: 59,
        nanosecond: 0,
    }
}

/// On the menu, `q` quits, `e` opens the enter-time screen and `c` the
/// start-date screen, each with an empty input; no other key changes anything.
pub proof fn menu_keys(s: UiState, k: KeyEvent)
    requires
        s.mode == UiMode::Menu,
        s.error is None,
        k.kind != KeyEventKind::Release,
    ensures
        step(s, Event::Key(k)).1 == Action::Nothing,
        k.code == KeyCode::Char('q') ==> step(s, Event::Key(k)).0 == (UiState { quit: true, ..s }),
        k.code == KeyCode::Char('e') ==> step(s, Event::Key(k)).0 == (UiState {
            mode: UiMode::WritingEnterTime,
            buffer: Seq::empty(),
            ..s
        }),
        k.code == KeyCode::Char('c') ==> step(s, Event::Key(k)).0 == (UiState {
            mode: UiMode::CalculatingStart,
            buffer: Seq::empty(),
            ..s
        }),
        k.code != KeyCode::Char('q') && k.code != KeyCode::Char('e') && k.code != KeyCode::Char('c')
            ==> step(s, Event::Key(k)).0 == s,
{
}

/// In every screen where text is typed, a character key appends the
/// character to the input and Backspace removes the last one; nothing else
/// changes and nothing is asked.
pub proof fn typing_edits_the_input(s: UiState, k: KeyEvent)
    requires
        is_input_mode(s.mode),
        s.error is None,
        k.kind != KeyEventKind::Release,
    ensures
        k.code matches KeyCode::Char(c) ==> step(s, Event::Key(k)) == (
        UiState { buffer: s.buffer.push(c), ..s },
        Action::Nothing,
        ),
        k.code == KeyCode::Backspace && s.buffer.len() > 0 ==> step(s, Event::Key(k)) == (
        UiState { buffer: s.buffer.drop_last(), ..s },
        Action::Nothing,
        ),
        k.code == KeyCode::Backspace && s.buffer.len() == 0 ==> step(s, Event::Key(k)) == (
        s,
        Action::Nothing,
        ),
{
}

/// Enter on the enter-time screen takes the typed date-time as the enter
/// time and opens the exit-time screen with an empty input, whatever
/// date-time it is; a text that does not read as `%Y-%m-%d %H:%M` shows the
/// date-time message and changes nothing else.
pub proof fn enter_time_is_what_was_typed(s: UiState, k: KeyEvent)
    requires
        s.mode == UiMode::WritingEnterTime,
        s.error is None,
        pressed(k, KeyCode::Enter),
    ensures
        step(s, Event::Key(k)).1 == Action::Nothing,
        chrono_parse_datetime(s.buffer, "%Y-%m-%d %H:%M"@) matches Some(d) ==> step(
            s,
            Event::Key(k),
        ).0 == (UiState {
            mode: UiMode::WritingExitTime,
            buffer: Seq::empty(),
            enter_time: Some(d),
            ..s
        }),
        chrono_parse_datetime(s.buffer, "%Y-%m-%d %H:%M"@) is None ==> step(s, Event::Key(k)).0 == (
        UiState { error: Some("Invalid date-time format. Please use YYYY-MM-DD HH:MM."@), ..s }),
{
}

/// Enter on the exit-time screen asks to register the period from the enter
/// time held to the typed exit time, for every exit time that reads as a
/// date-time (on the same day, overnight, or any other), and changes nothing
/// yet; a text that does not read shows the date-time message.
pub proof fn exit_time_registers_the_period(s: UiState, k: KeyEvent)
    requires
        s.mode == UiMode::WritingExitTime,
        s.error is None,
        pressed(k, KeyCode::Enter),
    ensures
        s.enter_time is Some && chrono_parse_datetime(s.buffer, "%Y-%m-%d %H:%M"@) is Some ==> step(
            s,
            Event::Key(k),
        ) == (
        s,
        Action::RegisterPeriod {
            enter: s.enter_time->Some_0,
            exit: chrono_parse_datetime(s.buffer, "%Y-%m-%d %H:%M"@)->Some_0,
        },
        ),
        s.enter_time is Some && chrono_parse_datetime(s.buffer, "%Y-%m-%d %H:%M"@) is None ==> step(
            s,
            Event::Key(k),
        ) == (
        UiState { error: Some("Invalid date-time format. Please use YYYY-MM-DD HH:MM."@), ..s },
        Action::Nothing,
        ),
        s.enter_time is None ==> step(s, Event::Key(k)) == (s, Action::Nothing),
{
}

/// Enter on the start-date screen takes the first second of the typed date
/// as the start of the range and opens the end-date screen with an empty
/// input; a text that does not read as `%Y-%m-%d` shows the date message.
pub proof fn start_is_first_second_of_typed_date(s: UiState, k: KeyEvent)
    requires
        s.mode == UiMode::CalculatingStart,
        s.error is None,
        pressed(k, KeyCode::Enter),
    ensures
        step(s, Event::Key(k)).1 == Action::Nothing,
        chrono_parse_date(s.buffer, "%Y-%m-%d"@) matches Some(d) ==> step(s, Event::Key(k)).0 == (
        UiState {
            mode: UiMode::CalculatingEnd,
            buffer: Seq::empty(),
            start_date: Some(first_second(d)),
            ..s
        }),
        chrono_parse_date(s.buffer, "%Y-%m-%d"@) is None ==> step(s, Event::Key(k)).0 == (UiState {
            error: Some("Invalid date format. Please use YYYY-MM-DD."@),
            ..s
        }),
{
}

/// Enter on the end-date screen asks for the total from the start held to
/// the last second of the typed date, for every date that reads (in the same
/// month or any other), and changes nothing yet; a text that does not read
/// shows the date message, and a missing start shows its own message.
pub proof fn end_date_asks_for_the_range(s: UiState, k: KeyEvent)
    requires
        s.mode == UiMode::CalculatingEnd,
        s.error is None,
        pressed(k, KeyCode::Enter),
    ensures
        s.start_date is Some && chrono_parse_date(s.buffer, "%Y-%m-%d"@) is Some ==> step(
            s,
            Event::Key(k),
        ) == (
        s,
        Action::CalculateHours {
            from: s.start_date->Some_0,
            to: last_second(chrono_parse_date(s.buffer, "%Y-%m-%d"@)->Some_0),
        },
        ),
        s.start_date is Some && chrono_parse_date(s.buffer, "%Y-%m-%d"@) is None ==> step(
            s,
            Event::Key(k),
        ) == (
        UiState { error: Some("Invalid date format. Please use YYYY-MM-DD."@), ..s },
        Action::Nothing,
        ),
        s.start_date is None ==> step(s, Event::Key(k)) == (
        UiState { error: Some("Invalid state: Start date not set"@), ..s },
        Action::Nothing,
        ),
{
}

/// The range that is summed runs from the first second of the date typed on
/// the start-date screen to the last second of the date typed on the
/// end-date screen: whatever is typed in between, confirming a start `d1`
/// and then an end `d2` asks for exactly that range.
pub proof fn range_runs_from_start_date_to_end_date(s: UiState, k: KeyEvent, typed: Seq<char>)
    requires
        s.mode == UiMode::CalculatingStart,
        s.error is None,
        pressed(k, KeyCode::Enter),
        chrono_parse_date(s.buffer, "%Y-%m-%d"@) is Some,
        chrono_parse_date(typed, "%Y-%m-%d"@) is Some,
    ensures
        step((UiState { buffer: typed, ..step(s, Event::Key(k)).0 }), Event::Key(k)).1 == (
        Action::CalculateHours {
            from: first_second(chrono_parse_date(s.buffer, "%Y-%m-%d"@)->Some_0),
            to: last_second(chrono_parse_date(typed, "%Y-%m-%d"@)->Some_0),
        }),
{
    start_is_first_second_of_typed_date(s, k);
    end_date_asks_for_the_range(UiState { buffer: typed, ..step(s, Event::Key(k)).0 }, k);
}

/// Enter or Esc on the result screen returns to the menu and forgets the
/// total and the start of the range.
pub proof fn result_screen_returns_to_menu(s: UiState, k: KeyEvent)
    requires
        s.mode == UiMode::CalculatingShowResult,
        s.error is None,
        pressed(k, KeyCode::Enter) || pressed(k, KeyCode::Esc),
    ensures
        step(s, Event::Key(k)).1 == Action::Nothing,
        step(s, Event::Key(k)).0 == (UiState {
            mode: UiMode::Menu,
            buffer: Seq::empty(),
            result: None,
            start_date: None,
            ..s
        }),
{
}

/// A registered period leads back to the menu with the input emptied and the
/// enter time forgotten; a refused one shows the error's message and changes
/// nothing else.
pub proof fn register_outcome(s: UiState, outcome: AppResult<()>)
    ensures
        outcome is Ok ==> register_done(s, outcome) == (UiState {
            mode: UiMode::Menu,
            buffer: Seq::empty(),
            enter_time: None,
            ..s
        }),
        outcome matches Err(e) ==> register_done(s, outcome) == (UiState {
            error: Some(e.message()),
            ..s
        }),
{
}

/// Every total, zero and negative ones included, is kept and shown on the
/// result screen with the input emptied; a failed calculation shows the
/// error's message and changes nothing else.
pub proof fn every_total_is_shown(s: UiState, outcome: AppResult<i128>)
    ensures
        outcome matches Ok(total) ==> calculation_done(s, outcome) == (UiState {
            mode: UiMode::CalculatingShowResult,
            buffer: Seq::empty(),
            result: Some(total as int),
            ..s
        }),
        outcome matches Err(e) ==> calculation_done(s, outcome) == (UiState {
            error: Some(e.message()),
            ..s
        }),
{
}

impl AppState {
    fn clear_input(&mut self)
        ensures
            final(self)@ == (UiState { buffer: Seq::empty(), ..old(self)@ }),
            final(self).db == old(self).db,
            final(self).config == old(self).config,
    {
        self.input_buffer = String::new();
    }

    fn set_error(&mut self, e: AppError)
        ensures
            final(self)@ == show_error(old(self)@, e.message()),
            final(self).db == old(self).db,
            final(self).config == old(self).config,
    {
        self.error_message = Some(e.user_message());
    }

    fn edit_input(&mut self, code: KeyCode)
        ensures
            final(self)@ == edit(old(self)@, code),
            final(self).db == old(self).db,
            final(self).config == old(self).config,
    {
        match code {
            KeyCode::Char(c) => push_char(&mut self.input_buffer, c),
            KeyCode::Backspace => {
                let _ = pop_char(&mut self.input_buffer);
            },
            _ => {},
        }
    }

    fn menu_key(&mut self, code: KeyCode)
        ensures
            final(self)@ == menu_step(old(self)@, code),
            final(self).db == old(self).db,
            final(self).config == old(self).config,
    {
        match code {
            KeyCode::Char('q') => self.quit(),
            KeyCode::Char('e') => {
                self.ui_mode = UiMode::WritingEnterTime;
                self.clear_input();
            },
            KeyCode::Char('c') => {
                self.ui_mode = UiMode::CalculatingStart;
                self.clear_input();
            },
            _ => {},
        }
    }

    fn enter_time_key(&mut self, code: KeyCode)
        ensures
            final(self)@ == enter_time_step(old(self)@, code),
            holds_valid_values(old(self)@) ==> holds_valid_values(final(self)@),
            final(self).db == old(self).db,
            final(self).config == old(self).config,
    {
        match code {
            KeyCode::Esc => {
                self.ui_mode = UiMode::Menu;
                self.clear_input();
            },
            KeyCode::Enter => {
                match parse_naive_datetime(self.input_buffer.as_str(), "%Y-%m-%d %H:%M") {
                    Ok(enter_time) => {
                        self.temporal_enter_time = Some(enter_time);
                        self.clear_input();
                        self.ui_mode = UiMode::WritingExitTime;
                    },
                    Err(e) => self.set_error(AppError::DateTimeParse(e)),
                }
            },
            _ => self.edit_input(code),
        }
    }

    fn exit_time_key(&mut self, code: KeyCode) -> (act: Action)
        ensures
            (final(self)@, act) == exit_time_step(old(self)@, code),
            holds_valid_values(old(self)@) ==> holds_valid_values(final(self)@),
            holds_valid_values(old(self)@) ==> action_is_valid(act),
            final(self).db == old(self).db,
            final(self).config == old(self).config,
    {
        match code {
            KeyCode::Esc => {
                self.ui_mode = UiMode::Menu;
                self.clear_input();
                Action::Nothing
            },
            KeyCode::Enter => {
                match self.temporal_enter_time {
                    Some(enter) => {
                        match parse_naive_datetime(self.input_buffer.as_str(), "%Y-%m-%d %H:%M") {
                            Ok(exit) => Action::RegisterPeriod { enter, exit },
                            Err(e) => {
                                self.set_error(AppError::DateTimeParse(e));
                                Action::Nothing
                            },
                        }
                    },
                    None => Action::Nothing,
                }
            },
            _ => {
                self.edit_input(code);
                Action::Nothing
            },
        }
    }

    fn start_date_key(&mut self, code: KeyCode)
        ensures
            final(self)@ == start_date_step(old(self)@, code),
            holds_valid_values(old(self)@) ==> holds_valid_values(final(self)@),
            final(self).db == old(self).db,
            final(self).config == old(self).config,
    {
        match code {
            KeyCode::Esc => {
                self.ui_mode = UiMode::Menu;
                self.clear_input();
            },
            KeyCode::Enter => {
                match parse_naive_date(self.input_buffer.as_str(), "%Y-%m-%d") {
                    Ok(date) => {
                        let start = date.and_hms(0, 0, 0);
                        self.temporal_start_date = start;
                        self.clear_input();
                        self.ui_mode = UiMode::CalculatingEnd;
                    },
                    Err(e) => self.set_error(AppError::DateParse(e)),
                }
            },
            _ => self.edit_input(code),
        }
    }

    fn end_date_key(&mut self, code: KeyCode) -> (act: Action)
        ensures
            (final(self)@, act) == end_date_step(old(self)@, code),
            holds_valid_values(old(self)@) ==> holds_valid_values(final(self)@),
            holds_valid_values(old(self)@) ==> action_is_valid(act),
            final(self).db == old(self).db,
            final(self).config == old(self).config,
    {
        match code {
            KeyCode::Esc => {
                self.ui_mode = UiMode::Menu;
                self.clear_input();
                Action::Nothing
            },
            KeyCode::Enter => {
                match self.temporal_start_date {
                    Some(from) => {
                        match parse_naive_date(self.input_buffer.as_str(), "%Y-%m-%d") {
                            Ok(date) => {
                                match date.and_hms(23, 59, 59) {
                                    Some(to) => Action::CalculateHours { from, to },
                                    None => Action::Nothing,
                                }
                            },
                            Err(e) => {
                                self.set_error(AppError::DateParse(e));
                                Action::Nothing
                            },
                        }
                    },
                    None => {
                        let msg = String::from_str("Start date not set");
                        proof {
                            reveal_strlit("Invalid state: ");
                            reveal_strlit("Start date not set");
                            reveal_strlit("Invalid state: Start date not set");
                            assert("Invalid state: "@ + msg@ =~= missing_start_message());
                        }
                        self.set_error(AppError::InvalidState(msg));
                        Action::Nothing
                    },
                }
            },
            _ => {
                self.edit_input(code);
                Action::Nothing
            },
        }
    }

    fn result_key(&mut self, code: KeyCode)
        ensures
            final(self)@ == result_step(old(self)@, code),
            final(self).db == old(self).db,
            final(self).config == old(self).config,
    {
        match code {
            KeyCode::Esc | KeyCode::Enter => {
                self.ui_mode = UiMode::Menu;
                self.clear_input();
                self.calculation_result = None;
                self.temporal_start_date = None;
            },
            _ => {},
        }
    }

    /// Handles one event of the terminal: changes the state as the event asks
    /// and returns the work on the database that it asks for, which the
    /// caller performs and reports back. Every date-time that the state holds
    /// or that the action carries is valid, provided the state held only
    /// valid ones before.
    pub fn handle_event(&mut self, ev: Event) -> (act: Action)
        ensures
            (final(self)@, act) == step(old(self)@, ev),
            holds_valid_values(old(self)@) ==> holds_valid_values(final(self)@),
            holds_valid_values(old(self)@) ==> action_is_valid(act),
            final(self).db == old(self).db,
            final(self).config == old(self).config,
    {
        let key = match ev {
            Event::Key(k) => k,
            Event::Other => {
                return Action::Nothing;
            },
        };
        if key.kind == KeyEventKind::Release {
            return Action::Nothing;
        }
        if self.error_message.is_some() {
            match key.code {
                KeyCode::Enter | KeyCode::Esc => self.error_message = None,
                _ => {},
            }
            return Action::Nothing;
        }
        match self.ui_mode {
            UiMode::Menu => {
                self.menu_key(key.code);
                Action::Nothing
            },
            UiMode::WritingEnterTime => {
                self.enter_time_key(key.code);
                Action::Nothing
            },
            UiMode::WritingExitTime => self.exit_time_key(key.code),
            UiMode::CalculatingStart => {
                self.start_date_key(key.code);
                Action::Nothing
            },
            UiMode::CalculatingEnd => self.end_date_key(key.code),
            UiMode::CalculatingShowResult => {
                self.result_key(key.code);
                Action::Nothing
            },
        }
    }

    /// Takes in the outcome of registering a period: on success the input is
    /// cleared and the menu shown, on failure the error's message is shown.
    pub fn finish_register(&mut self, outcome: AppResult<()>)
        ensures
            final(self)@ == register_done(old(self)@, outcome),
            holds_valid_values(old(self)@) ==> holds_valid_values(final(self)@),
            final(self).db == old(self).db,
            final(self).config == old(self).config,
    {
        match outcome {
            Ok(_) => {
                self.clear_input();
                self.temporal_enter_time = None;
                self.ui_mode = UiMode::Menu;
            },
            Err(e) => self.set_error(e),
        }
    }

    /// Takes in the outcome of a calculation: on success the total is kept
    /// and shown, on failure the error's message is shown.
    pub fn finish_calculation(&mut self, outcome: AppResult<i128>)
        ensures
            final(self)@ == calculation_done(old(self)@, outcome),
            holds_valid_values(old(self)@) ==> holds_valid_values(final(self)@),
            final(self).db == old(self).db,
            final(self).config == old(self).config,
    {
        match outcome {
            Ok(total) => {
                self.calculation_result = Some(total);
                self.clear_input();
                self.ui_mode = UiMode::CalculatingShowResult;
            },
            Err(e) => self.set_error(e),
        }
    }
}

} // verus!
