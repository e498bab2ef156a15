//! What the screen shows in each state, and where a centered pop-up goes.

use ratatui::layout::{Constraint, Direction, Layout, Rect};
use vstd::prelude::*;

use crate::app::{AppState, UiMode, UiState};

verus! {

/// The color that marks the border of the central panel.
#[derive(Clone, Copy, Debug, PartialEq, Eq, Structural)]
pub enum Accent {
    Plain,
    Green,
    LightRed,
}

/// The content of the screen: a header, a central panel with a title and a
/// text (or the total of a calculation), a footer of key hints, and an
/// optional error pop-up.
pub struct Screen {
    pub header: String,
    pub panel_title: String,
    pub panel_text: String,
    pub accent: Accent,
    pub total_seconds: Option<i128>,
    pub footer: String,
    pub popup: Option<String>,
}

pub open spec fn header_text() -> Seq<char> {
    "Time Tracker Application"@
}

pub open spec fn panel_title_of(mode: UiMode) -> Seq<char> {
    match mode {
        UiMode::Menu => " Main Menu "@,
        UiMode::WritingEnterTime => " Enter Time "@,
        UiMode::WritingExitTime => " Exit Time "@,
        UiMode::CalculatingStart => " Start Date "@,
        UiMode::CalculatingEnd => " End Date "@,
        UiMode::CalculatingShowResult => " Total "@,
    }
}

/// The fixed part of the central text; in the input screens the typed text
/// follows it.
pub open spec fn panel_lead_of(mode: UiMode) -> Seq<char> {
    match mode {
        UiMode::Menu => "Welcome to the registration.\n\nPress 'e' to enter a new manual period.\nPress 'q' to exit the application."@,
        UiMode::WritingEnterTime => "Enter the date (YYYY-MM-DD HH:MM:SS):\n\n> "@,
        UiMode::WritingExitTime => "Enter the exit date (YYYY-MM-DD HH:MM:SS):\n\n> "@,
        UiMode::CalculatingStart => "Enter the start date (YYYY-MM-DD):\n\n> "@,
        UiMode::CalculatingEnd => "Enter the end date (YYYY-MM-DD):\n\n> "@,
        UiMode::CalculatingShowResult => "Hours worked in the range:"@,
    }
}

/// Whether the typed text is shown after the lead.
pub open spec fn shows_input(mode: UiMode) -> bool {
    mode != UiMode::Menu && mode != UiMode::CalculatingShowResult
}

pub open spec fn accent_of(mode: UiMode) -> Accent {
    match mode {
        UiMode::WritingEnterTime | UiMode::CalculatingStart => Accent::Green,
        UiMode::WritingExitTime | UiMode::CalculatingEnd => Accent::LightRed,
        _ => Accent::Plain,
    }
}

pub open spec fn footer_of(mode: UiMode) -> Seq<char> {
    match mode {
        UiMode::Menu => " 'q' Exit | 'e' Write period "@,
        UiMode::WritingEnterTime | UiMode::WritingExitTime => " 'Esc' Cancel and return to Menu | 'Enter' Save "@,
        UiMode::CalculatingStart | UiMode::CalculatingEnd => " 'Esc' Cancel and return to Menu | 'Enter' Continue "@,
        UiMode::CalculatingShowResult => " 'Esc' or 'Enter' Return to Menu "@,
    }
}

/// The central text of a state.
pub open spec fn panel_text_of(s: UiState) -> Seq<char> {
    if shows_input(s.mode) {
        panel_lead_of(s.mode) + s.buffer
    } else {
        panel_lead_of(s.mode)
    }
}

/// On the screens where text is typed the central text ends with exactly
/// what has been typed, after the prompt of the screen; on the menu and the
/// result screen it is the fixed text of the screen, whatever was typed.
pub proof fn panel_shows_what_was_typed(s: UiState)
    ensures
        shows_input(s.mode) <==> (s.mode == UiMode::WritingEnterTime || s.mode
            == UiMode::WritingExitTime || s.mode == UiMode::CalculatingStart || s.mode
            == UiMode::CalculatingEnd),
        shows_input(s.mode) ==> panel_text_of(s).len() == panel_lead_of(s.mode).len()
            + s.buffer.len(),
        shows_input(s.mode) ==> panel_text_of(s).subrange(
            panel_lead_of(s.mode).len() as int,
            panel_text_of(s).len() as int,
        ) == s.buffer,
        !shows_input(s.mode) ==> panel_text_of(s) == panel_lead_of(s.mode),
{
    if shows_input(s.mode) {
        assert(panel_text_of(s).subrange(
            panel_lead_of(s.mode).len() as int,
            panel_text_of(s).len() as int,
        ) =~= s.buffer);
    }
}

fn panel_title(mode: UiMode) -> (res: String)
    ensures
        res@ == panel_title_of(mode),
{
    match mode {
        UiMode::Menu => String::from_str(" Main Menu "),
        UiMode::WritingEnterTime => String::from_str(" Enter Time "),
        UiMode::WritingExitTime => String::from_str(" Exit Time "),
        UiMode::CalculatingStart => String::from_str(" Start Date "),
        UiMode::CalculatingEnd => String::from_str(" End Date "),
        UiMode::CalculatingShowResult => String::from_str(" Total "),
    }
}

fn panel_lead(mode: UiMode) -> (res: String)
    ensures
        res@ == panel_lead_of(mode),
{
    match mode {
        UiMode::Menu => String::from_str(
            "Welcome to the registration.\n\nPress 'e' to enter a new manual period.\nPress 'q' to exit the application.",
        ),
        UiMode::WritingEnterTime => String::from_str("Enter the date (YYYY-MM-DD HH:MM:SS):\n\n> "),
        UiMode::WritingExitTime => String::from_str(
            "Enter the exit date (YYYY-MM-DD HH:MM:SS):\n\n> ",
        ),
        UiMode::CalculatingStart => String::from_str("Enter the start date (YYYY-MM-DD):\n\n> "),
        UiMode::CalculatingEnd => String::from_str("Enter the end date (YYYY-MM-DD):\n\n> "),
        UiMode::CalculatingShowResult => String::from_str("Hours worked in the range:"),
    }
}

fn footer(mode: UiMode) -> (res: String)
    ensures
        res@ == footer_of(mode),
{
    match mode {
        UiMode::Menu => String::from_str(" 'q' Exit | 'e' Write period "),
        UiMode::WritingEnterTime | UiMode::WritingExitTime => String::from_str(
            " 'Esc' Cancel and return to Menu | 'Enter' Save ",
        ),
        UiMode::CalculatingStart | UiMode::CalculatingEnd => String::from_str(
            " 'Esc' Cancel and return to Menu | 'Enter' Continue ",
        ),
        UiMode::CalculatingShowResult => String::from_str(" 'Esc' or 'Enter' Return to Menu "),
    }
}

fn accent(mode: UiMode) -> (res: Accent)
    ensures
        res == accent_of(mode),
{
    match mode {
        UiMode::WritingEnterTime | UiMode::CalculatingStart => Accent::Green,
        UiMode::WritingExitTime | UiMode::CalculatingEnd => Accent::LightRed,
        _ => Accent::Plain,
    }
}

/// The content of the screen for a state: the panel of its mode, the typed
/// text in the input screens, the total on the result screen, and the
/// error message, if any, in a pop-up.
pub fn screen(app: &AppState) -> (res: Screen)
    ensures
        res.header@ == header_text(),
        res.panel_title@ == panel_title_of(app.ui_mode),
        res.panel_text@ == panel_text_of(app@),
        res.accent == accent_of(app.ui_mode),
        res.footer@ == footer_of(app.ui_mode),
        res.total_seconds == (if app.ui_mode == UiMode::CalculatingShowResult {
            app.calculation_result
        } else {
            None
        }),
        res.popup is Some <==> app.error_message is Some,
        res.popup is Some ==> res.popup->Some_0@ == app.error_message->Some_0@,
{
    let mode = app.ui_mode;
    let mut panel_text = panel_lead(mode);
    if mode != UiMode::Menu && mode != UiMode::CalculatingShowResult {
        panel_text.append(app.input_buffer.as_str());
    }
    let total_seconds = if mode == UiMode::CalculatingShowResult {
        app.calculation_result
    } else {
        None
    };
    let popup = match &app.error_message {
        Some(msg) => Some(msg.clone()),
        None => None,
    };
    Screen {
        header: String::from_str("Time Tracker Application"),
        panel_title: panel_title(mode),
        panel_text,
        accent: accent(mode),
        total_seconds,
        footer: footer(mode),
        popup,
    }
}

/// A rectangle of the terminal, in cells.
#[derive(Clone, Copy, Debug, PartialEq, Eq, Structural)]
pub struct Area {
    pub x: u16,
    pub y: u16,
    pub width: u16,
    pub height: u16,
}

/// The direction in which an area is split.
#[derive(Clone, Copy, Debug, PartialEq, Eq, Structural)]
pub enum Axis {
    Vertical,
    Horizontal,
}

/// The number of cells an area covers from `start` on, with its end cut at
/// the last coordinate a `u16` can hold.
pub open spec fn reach(start: u16, len: u16) -> int {
    if start + len <= u16::MAX {
        len as int
    } else {
        u16::MAX - start
    }
}

/// A length counted in hundredths of a cell is within one cell of `exact`.
pub open spec fn within_a_cell(hundredths: int, exact: int) -> bool {
    -100 <= hundredths - exact <= 100
}

/// The cell at `percent` percent of the way along a span of `len` cells,
/// rounded to the nearest cell, halves up.
pub open spec fn boundary(len: int, percent: int) -> int {
    (len * percent + 50) / 100
}

/// Calls `ratatui::layout::Layout::split` on an area, in one direction, with
/// the three percentages `side`, `middle`, `side`, which add up to at most a
/// hundred, and returns the middle piece. Claimed of it: the piece spans the
/// whole area across the direction of the split; along that direction it
/// starts at the cell `side` percent of the way along the area and ends at
/// the cell `side + middle` percent of the way, each rounded to the nearest
/// cell, halves up. The source shows why: every boundary is held inside the
/// area as a required constraint; the spacers between the pieces are held
/// empty more strongly than the percentages are held, and only the spacer
/// after the last piece, held weakly, takes the space left over, so each
/// percentage, a strong constraint, is met; the boundaries are solved in
/// hundredths of a cell and rounded twice, to a hundredth and then to a cell.
/// These constraints have a single best solution, so the order in which the
/// solver visits them, which varies from one process to the next, does not
/// change it.
#[verifier::external_body]
fn split_middle(area: Area, axis: Axis, side: u16, middle: u16) -> (res: Area)
    requires
        2 * side + middle <= 100,
    ensures
        axis == Axis::Vertical ==> res.x == area.x && res.width == area.width,
        axis == Axis::Vertical ==> res.y == area.y + boundary(reach(area.y, area.height), side as int),
        axis == Axis::Vertical ==> res.y + res.height == area.y + boundary(
            reach(area.y, area.height),
            side + middle,
        ),
        axis == Axis::Horizontal ==> res.y == area.y && res.height == area.height,
        axis == Axis::Horizontal ==> res.x == area.x + boundary(reach(area.x, area.width), side as int),
        axis == Axis::Horizontal ==> res.x + res.width == area.x + boundary(
            reach(area.x, area.width),
            side + middle,
        ),
{
    let direction = match axis {
        Axis::Vertical => Direction::Vertical,
        Axis::Horizontal => Direction::Horizontal,
    };
    let rect = Rect { x: area.x, y: area.y, width: area.width, height: area.height };
    let constraints =
        [Constraint::Percentage(side), Constraint::Percentage(middle), Constraint::Percentage(side)];
    let piece = Layout::default().direction(direction).constraints(constraints).split(rect)[1];
    Area { x: piece.x, y: piece.y, width: piece.width, height: piece.height }
}

/// The percentages that center a piece of `percent` percent: the rest is
/// shared equally between the two sides.
pub fn centered_percentages(percent: u16) -> (res: (u16, u16, u16))
    requires
        percent <= 100,
    ensures
        res.0 == (100 - percent) / 2,
        res.1 == percent,
        res.2 == (100 - percent) / 2,
        res.0 + res.1 + res.2 <= 100,
{
    let side: u16 = (100 - percent) / 2;
    (side, percent, side)
}

/// The margins of a piece inside a span, in hundredths of a cell, differ by
/// the odd percent that `percent` leaves over (when it does), within three
/// cells: the piece is centered.
pub open spec fn margins_balanced(start: int, len: int, piece_start: int, piece_len: int, percent: int) -> bool {
    let before = piece_start - start;
    let after = (start + len) - (piece_start + piece_len);
    -300 <= 100 * (after - before) - len * ((100 - percent) % 2) <= 300
}

/// On a span of whole hundreds of cells the boundaries fall on exact cells,
/// with no rounding: a pop-up there has exactly its percentages of width and
/// height and equal margins.
pub proof fn whole_hundreds_are_exact(len: int, percent: int)
    requires
        0 <= len,
        len % 100 == 0,
        0 <= percent <= 100,
    ensures
        boundary(len, percent) == len / 100 * percent,
{
    let k = len / 100;
    assert(len * percent + 50 == 100 * (k * percent) + 50) by (nonlinear_arith)
        requires
            len == 100 * k,
    ;
    assert((100 * (k * percent) + 50) / 100 == k * percent) by (nonlinear_arith);
}

/// What the rounded boundaries of a centered piece make of its size, its
/// place and its margins.
proof fn lemma_centered_piece(len: int, percent: int, side: int)
    requires
        0 <= len,
        0 <= percent <= 100,
        side == (100 - percent) / 2,
    ensures
        0 <= boundary(len, side) <= boundary(len, side + percent) <= len,
        within_a_cell(100 * boundary(len, side), len * side),
        within_a_cell(100 * (boundary(len, side + percent) - boundary(len, side)), len * percent),
        margins_balanced(
            0,
            len,
            boundary(len, side),
            boundary(len, side + percent) - boundary(len, side),
            percent,
        ),
{
    let x = len * side;
    let y = len * (side + percent);
    assert(y == x + len * percent) by (nonlinear_arith)
        requires
            x == len * side,
            y == len * (side + percent),
    ;
    assert(0 <= x <= y) by (nonlinear_arith)
        requires
            0 <= len,
            0 <= side,
            0 <= percent,
            x == len * side,
            y == len * (side + percent),
    ;
    assert(y <= 100 * len) by (nonlinear_arith)
        requires
            0 <= len,
            side + percent <= 100,
            y == len * (side + percent),
    ;
    assert(len * ((100 - percent) % 2) == 100 * len - 2 * x - len * percent) by (nonlinear_arith)
        requires
            side == (100 - percent) / 2,
            0 <= percent <= 100,
            x == len * side,
    ;
}

/// The pop-up of `percent_x` by `percent_y` percent centered in `r`: on each
/// axis it runs from the cell `(100 - p) / 2` percent of the way along `r` to
/// the cell `(100 - p) / 2 + p` percent of the way, rounded to the nearest cell.
pub open spec fn centered_in(percent_x: u16, percent_y: u16, r: Area) -> Area {
    let x0 = boundary(reach(r.x, r.width), (100 - percent_x) / 2);
    let x1 = boundary(reach(r.x, r.width), (100 - percent_x) / 2 + percent_x);
    let y0 = boundary(reach(r.y, r.height), (100 - percent_y) / 2);
    let y1 = boundary(reach(r.y, r.height), (100 - percent_y) / 2 + percent_y);
    Area { x: (r.x + x0) as u16, y: (r.y + y0) as u16, width: (x1 - x0) as u16, height: (y1 - y0) as u16 }
}

/// The area of a pop-up that takes `percent_x` percent of the width and
/// `percent_y` percent of the height of `r`, centered in it: it starts and
/// ends at the cells `(100 - p) / 2` and `(100 - p) / 2 + p` percent of the
/// way along each side of `r`, rounded to the nearest cell. So it lies within
/// `r`, its width and height are those percentages of the width and height of
/// `r` within a cell, and its margins on each side are balanced.
pub fn centered_area(percent_x: u16, percent_y: u16, r: Area) -> (res: Area)
    requires
        percent_x <= 100,
        percent_y <= 100,
    ensures
        res == centered_in(percent_x, percent_y, r),
        res.x == r.x + boundary(reach(r.x, r.width), (100 - percent_x) / 2),
        res.x + res.width == r.x + boundary(reach(r.x, r.width), (100 - percent_x) / 2 + percent_x),
        res.y == r.y + boundary(reach(r.y, r.height), (100 - percent_y) / 2),
        res.y + res.height == r.y + boundary(reach(r.y, r.height), (100 - percent_y) / 2 + percent_y),
        r.x <= res.x,
        res.x + res.width <= r.x + r.width,
        r.y <= res.y,
        res.y + res.height <= r.y + r.height,
        within_a_cell(100 * res.width, reach(r.x, r.width) * percent_x),
        within_a_cell(100 * res.height, reach(r.y, r.height) * percent_y),
        within_a_cell(100 * (res.x - r.x), reach(r.x, r.width) * ((100 - percent_x) / 2)),
        within_a_cell(100 * (res.y - r.y), reach(r.y, r.height) * ((100 - percent_y) / 2)),
        margins_balanced(r.x as int, reach(r.x, r.width), res.x as int, res.width as int, percent_x as int),
        margins_balanced(r.y as int, reach(r.y, r.height), res.y as int, res.height as int, percent_y as int),
{
    let (top, height, _): (u16, u16, u16) = centered_percentages(percent_y);
    let band = split_middle(r, Axis::Vertical, top, height);
    let (left, width, _): (u16, u16, u16) = centered_percentages(percent_x);
    let res = split_middle(band, Axis::Horizontal, left, width);
    proof {
        lemma_centered_piece(reach(r.x, r.width), percent_x as int, left as int);
        lemma_centered_piece(reach(r.y, r.height), percent_y as int, top as int);
    }
    res
}

/// What `Rect::inner` of ratatui leaves of an area inside a margin of two
/// cells on every side: nothing, at the origin, when the area is narrower or
/// lower than four cells.
pub open spec fn inside_margin(area: Area) -> Area {
    if area.width < 4 || area.height < 4 {
        Area { x: 0, y: 0, width: 0, height: 0 }
    } else {
        Area {
            x: if area.x + 2 <= u16::MAX { (area.x + 2) as u16 } else { u16::MAX },
            y: if area.y + 2 <= u16::MAX { (area.y + 2) as u16 } else { u16::MAX },
            width: (area.width - 4) as u16,
            height: (area.height - 4) as u16,
        }
    }
}

/// The header, the center and the footer of a frame whose inside is `inner`
/// and is at least seven cells high: three cells, the rest, and three cells.
pub open spec fn frame_pieces(inner: Area) -> (Area, Area, Area) {
    let len = reach(inner.y, inner.height);
    (
        Area { x: inner.x, y: inner.y, width: inner.width, height: 3 },
        Area { x: inner.x, y: (inner.y + 3) as u16, width: inner.width, height: (len - 6) as u16 },
        Area { x: inner.x, y: (inner.y + len - 3) as u16, width: inner.width, height: 3 },
    )
}

/// The three pieces span `inner` across, and lie in order, one after the
/// other, within it along.
pub open spec fn pieces_in_order(inner: Area, pieces: (Area, Area, Area)) -> bool {
    let (a, b, c) = pieces;
    &&& a.x == inner.x && a.width == inner.width
    &&& b.x == inner.x && b.width == inner.width
    &&& c.x == inner.x && c.width == inner.width
    &&& inner.y <= a.y
    &&& a.y + a.height <= b.y
    &&& b.y + b.height <= c.y
    &&& c.y + c.height <= inner.y + reach(inner.y, inner.height)
}

/// Calls `ratatui::layout::Layout::split` on a frame, vertically, with a
/// margin of two cells and the constraints `Length(3)`, `Min(1)`,
/// `Length(3)`. Claimed of it: the pieces span the inside of the margin
/// across and lie in order within it; and when the inside is at least seven
/// cells high, they are three cells, the rest, and three cells. The source
/// shows why: the boundaries are held inside the area and in order as
/// required constraints; the lengths are held more strongly than the middle
/// piece's wish to grow, and that wish more strongly than the last spacer's,
/// so the middle piece takes all that the lengths leave. Below seven cells
/// the lengths and the minimum cannot all be met, and which piece gives way
/// is left unsaid.
#[verifier::external_body]
fn split_frame(area: Area) -> (res: (Area, Area, Area))
    ensures
        pieces_in_order(inside_margin(area), res),
        reach(inside_margin(area).y, inside_margin(area).height) >= 7 ==> res == frame_pieces(
            inside_margin(area),
        ),
{
    let rect = Rect { x: area.x, y: area.y, width: area.width, height: area.height };
    let lengths = [Constraint::Length(3), Constraint::Min(1), Constraint::Length(3)];
    let c = Layout::vertical(lengths).margin(2).split(rect);
    let (a, b, d) = (c[0], c[1], c[2]);
    (
        Area { x: a.x, y: a.y, width: a.width, height: a.height },
        Area { x: b.x, y: b.y, width: b.width, height: b.height },
        Area { x: d.x, y: d.y, width: d.width, height: d.height },
    )
}

/// Where the parts of the screen go in a frame: the header, the central
/// panel and the footer, one under the other inside a margin of two cells,
/// and the error pop-up, half as wide and a fifth as high as the frame,
/// centered in it.
pub struct FrameLayout {
    pub header: Area,
    pub center: Area,
    pub footer: Area,
    pub popup: Area,
}

/// The places of the parts of the screen in a frame.
pub fn frame_layout(frame: Area) -> (res: FrameLayout)
    ensures
        pieces_in_order(inside_margin(frame), (res.header, res.center, res.footer)),
        reach(inside_margin(frame).y, inside_margin(frame).height) >= 7 ==> (
        res.header,
        res.center,
        res.footer,
        ) == frame_pieces(inside_margin(frame)),
        res.popup == centered_in(50, 20, frame),
{
    let (header, center, footer) = split_frame(frame);
    let popup = centered_area(50, 20, frame);
    FrameLayout { header, center, footer, popup }
}

} // verus!
