//! What the screens show, as text with colours, computed from the state.
//!
//! The main board (title, table rows, notices, status line, key hints), the
//! station picker and the train detail view are built here as plain text and
//! styles; drawing them on the terminal happens outside the library.

use vstd::prelude::*;
use ratatui::layout::{Constraint, Direction, Layout, Rect};
use crate::app::{App, ConnectionState, ContentType};
use crate::lang::Tr;
use crate::model::{Remark, TrainItem};
use crate::text::{
    copy_str, decimal_seq, push_decimal, replace_char, replace_char_seq, signed_decimal,
    signed_decimal_seq,
};
use crate::time::{calculate_delay, clock_hh_mm_ss, delay_seq, format_time, format_time_at, hh_mm_ss_seq, shows_time, shows_time_at};

verus! {

broadcast use vstd::string::group_string_axioms;

/// The colours the screens use.
#[derive(Clone, Copy, PartialEq, Eq, Structural, Debug)]
pub enum Color {
    Red,
    Yellow,
    Green,
    Gray,
    White,
    Cyan,
    Magenta,
    DarkGray,
    Blue,
    Black,
}

/// How a piece of text is drawn.
#[derive(Clone, Copy, PartialEq, Eq, Structural, Debug)]
pub struct Style {
    pub fg: Option<Color>,
    pub bg: Option<Color>,
    pub bold: bool,
}

/// A piece of text with its style.
#[derive(Debug)]
pub struct Span {
    pub text: String,
    pub style: Style,
}

impl DeepView for Span {
    type V = (Seq<char>, Style);

    open spec fn deep_view(&self) -> (Seq<char>, Style) {
        (self.text@, self.style)
    }
}

/// No colour, not bold.
pub open spec fn plain() -> Style {
    Style { fg: None, bg: None, bold: false }
}

/// Text in colour `c`.
pub open spec fn colored(c: Color) -> Style {
    Style { fg: Some(c), bg: None, bold: false }
}

/// Bold text in colour `c`.
pub open spec fn strong(c: Color) -> Style {
    Style { fg: Some(c), bg: None, bold: true }
}

/// The plain style.
pub fn plain_style() -> (r: Style)
    ensures
        r == plain(),
{
    Style { fg: None, bg: None, bold: false }
}

/// Text in colour `c`.
pub fn colored_style(c: Color) -> (r: Style)
    ensures
        r == colored(c),
{
    Style { fg: Some(c), bg: None, bold: false }
}

/// Bold text in colour `c`.
pub fn strong_style(c: Color) -> (r: Style)
    ensures
        r == strong(c),
{
    Style { fg: Some(c), bg: None, bold: true }
}

/// A span of a static text.
fn span_of(text: &str, style: Style) -> (r: Span)
    ensures
        r.deep_view() == (text@, style),
{
    Span { text: copy_str(text), style }
}

/// The colour of a delay in minutes: green on time or early, yellow up to five
/// minutes late, red beyond that.
pub open spec fn delay_color_of(delay: i64) -> Color {
    if delay > 5 {
        Color::Red
    } else if delay > 0 {
        Color::Yellow
    } else {
        Color::Green
    }
}

/// Map a delay (minutes) to its colour: green on time, yellow up to 5 min late,
/// red beyond that.
pub fn delay_color(delay: i64) -> (r: Color)
    ensures
        r == delay_color_of(delay),
{
    if delay > 5 {
        Color::Red
    } else if delay > 0 {
        Color::Yellow
    } else {
        Color::Green
    }
}

// ---------------------------------------------------------------------------
// Main board
// ---------------------------------------------------------------------------

/// The board's title: the board's name and the station.
pub open spec fn board_title_seq(tr: Tr, c: ContentType, station: Seq<char>) -> Seq<char> {
    "🚂 "@ + (match c {
        ContentType::Departure => tr.departures@,
        ContentType::Arrival => tr.arrivals@,
    }) + " - "@ + station
}

/// The main board's title.
pub fn board_title(app: &App) -> (r: String)
    ensures
        r@ == board_title_seq(app.lang.tr_spec(), app.content_type, app.station_name@),
{
    let tr = app.lang.tr();
    let mut r = copy_str("🚂 ");
    match app.content_type {
        ContentType::Departure => r.append(tr.departures),
        ContentType::Arrival => r.append(tr.arrivals),
    }
    r.append(" - ");
    r.append(app.station_name.as_str());
    r
}

/// The table's column headings.
pub open spec fn header_seq(tr: Tr, c: ContentType) -> Seq<Seq<char>> {
    seq![
        "#"@,
        tr.col_time@,
        tr.col_actual@,
        tr.col_delay@,
        tr.col_train@,
        tr.col_line@,
        if c == ContentType::Departure {
            tr.col_dest@
        } else {
            tr.col_from@
        },
        tr.col_track@,
        tr.col_sector@,
        tr.col_remarks@,
    ]
}

/// The table's column headings for the board shown.
pub fn header_labels(app: &App) -> (r: Vec<&'static str>)
    ensures
        r@.map_values(|s: &str| s@) == header_seq(app.lang.tr_spec(), app.content_type),
{
    let tr = app.lang.tr();
    let mut r: Vec<&'static str> = Vec::new();
    r.push("#");
    r.push(tr.col_time);
    r.push(tr.col_actual);
    r.push(tr.col_delay);
    r.push(tr.col_train);
    r.push(tr.col_line);
    r.push(
        if app.content_type == ContentType::Departure {
            tr.col_dest
        } else {
            tr.col_from
        },
    );
    r.push(tr.col_track);
    r.push(tr.col_sector);
    r.push(tr.col_remarks);
    assert(r@.map_values(|s: &str| s@) =~= header_seq(app.lang.tr_spec(), app.content_type));
    r
}

/// One row of the board.
#[derive(Debug)]
pub struct BoardRow {
    /// The key that opens the train: `1`..`9`, `0`, or a blank.
    pub number: String,
    pub scheduled: String,
    pub actual: String,
    /// The UTC offset, in seconds, of the local clock the scheduled time is
    /// read on; none when it shows `-`.
    pub scheduled_offset: Option<i32>,
    /// The UTC offset, in seconds, of the local clock the actual time is read
    /// on; none when it shows `-`.
    pub actual_offset: Option<i32>,
    pub delay: String,
    pub delay_color: Color,
    pub train: String,
    pub line: String,
    pub dest: String,
    pub track: String,
    pub sector: String,
    pub remarks: String,
    /// The row is the selected train.
    pub selected: bool,
}

/// The key shown beside row `idx`.
pub open spec fn row_number_seq(idx: nat) -> Seq<char> {
    if idx <= 8 {
        decimal_seq(idx + 1)
    } else if idx == 9 {
        "0"@
    } else {
        " "@
    }
}

/// A delay as the board writes it: `+` before a positive one.
pub open spec fn delay_text_seq(d: i64) -> Seq<char> {
    if d > 0 {
        "+"@ + decimal_seq(d as nat)
    } else {
        signed_decimal_seq(d as int)
    }
}

/// The text of an optional string, or `default` without one.
pub open spec fn or_text(o: Option<Seq<char>>, default: Seq<char>) -> Seq<char> {
    match o {
        Some(s) => s,
        None => default,
    }
}

/// The first option that is set.
pub open spec fn first_some(a: Option<Seq<char>>, b: Option<Seq<char>>) -> Option<Seq<char>> {
    match a {
        Some(x) => Some(x),
        None => b,
    }
}

/// The first remark of a train on one line: its line breaks become spaces.
pub open spec fn first_remark_seq(remarks: Option<Seq<Seq<char>>>) -> Seq<char> {
    match remarks {
        Some(r) => if r.len() > 0 {
            replace_char_seq(r[0], '\n', " "@)
        } else {
            Seq::<char>::empty()
        },
        None => Seq::<char>::empty(),
    }
}

/// `r` is row `idx` of the board for `item`, `sel` telling whether it is the
/// selected train.
pub open spec fn row_of(item: TrainItem, idx: nat, c: ContentType, sel: bool, r: BoardRow) -> bool {
    let v = item.deep_view();
    &&& r.number@ == row_number_seq(idx)
    &&& shows_time(v.scheduled, r.scheduled@)
    &&& shows_time_at(v.scheduled, r.scheduled@, r.scheduled_offset)
    &&& match delay_seq(v.scheduled, v.expected) {
        Some(d) => {
            &&& shows_time(v.expected.unwrap(), r.actual@)
            &&& shows_time_at(v.expected.unwrap(), r.actual@, r.actual_offset)
            &&& r.delay@ == delay_text_seq(d)
            &&& r.delay_color == delay_color_of(d)
        },
        None => r.actual@ == "-"@ && r.actual_offset is None && r.delay@ == "-"@ && r.delay_color == Color::Gray,
    }
    &&& r.train@ == v.train
    &&& r.line@ == or_text(first_some(v.line, v.product), Seq::<char>::empty())
    &&& r.dest@ == or_text(
        match c {
            ContentType::Departure => v.destination,
            ContentType::Arrival => v.origin,
        },
        "N/A"@,
    )
    &&& r.track@ == or_text(v.track, "-"@)
    &&& r.sector@ == or_text(v.sector, "-"@)
    &&& r.remarks@ == first_remark_seq(v.remarks)
    &&& r.selected == sel
}

/// A copy of an optional text, or `default`.
fn text_or(o: &Option<String>, default: &str) -> (r: String)
    ensures
        r@ == or_text(o.deep_view(), default@),
{
    match o {
        Some(s) => s.clone(),
        None => copy_str(default),
    }
}

/// A delay as the board writes it.
pub fn delay_text(d: i64) -> (r: String)
    ensures
        r@ == delay_text_seq(d),
{
    if d > 0 {
        let mut r = copy_str("+");
        push_decimal(&mut r, d as u64);
        r
    } else {
        signed_decimal(d)
    }
}

/// One row of the board: train `idx` of `app.items`.
pub fn board_row(app: &App, idx: usize) -> (r: BoardRow)
    requires
        idx < app.items@.len(),
    ensures
        row_of(app.items@[idx as int], idx as nat, app.content_type, app.selected_train_index == Some(idx), r),
{
    let item = &app.items[idx];
    let (scheduled, scheduled_offset) = format_time_at(item.scheduled.as_str());
    let (actual, actual_offset, delay, delay_col) = match calculate_delay(item) {
        Some(d) => {
            let (actual, actual_offset) = match &item.expected {
                Some(e) => format_time_at(e.as_str()),
                None => (copy_str("-"), None),
            };
            (actual, actual_offset, delay_text(d), delay_color(d))
        },
        None => (copy_str("-"), None, copy_str("-"), Color::Gray),
    };
    let line = match &item.line {
        Some(l) => l.clone(),
        None => text_or(&item.product, ""),
    };
    let dest = match app.content_type {
        ContentType::Departure => match &item.destination {
            Some(d) => d.default.clone(),
            None => copy_str("N/A"),
        },
        ContentType::Arrival => match &item.origin {
            Some(o) => o.default.clone(),
            None => copy_str("N/A"),
        },
    };
    let remarks = match &item.remarks {
        Some(rs) => if rs.len() > 0 {
            replace_char(rs[0].text.default.as_str(), '\n', " ")
        } else {
            String::new()
        },
        None => String::new(),
    };
    let number = if idx <= 8 {
        let mut n = String::new();
        push_decimal(&mut n, (idx + 1) as u64);
        n
    } else if idx == 9 {
        copy_str("0")
    } else {
        copy_str(" ")
    };
    proof {
        reveal_strlit("");
    }
    let r = BoardRow {
        number,
        scheduled,
        actual,
        scheduled_offset,
        actual_offset,
        delay,
        delay_color: delay_col,
        train: item.train.clone(),
        line,
        dest,
        track: text_or(&item.track, "-"),
        sector: text_or(&item.sector, "-"),
        remarks,
        selected: app.selected_train_index == Some(idx),
    };
    let ghost v = app.items@[idx as int].deep_view();
    assert(r.number@ == row_number_seq(idx as nat));
    assert(shows_time(v.scheduled, r.scheduled@));
    assert(r.train@ == v.train);
    assert(r.line@ == or_text(first_some(v.line, v.product), Seq::<char>::empty()));
    assert(r.track@ == or_text(v.track, "-"@));
    assert(r.remarks@ == first_remark_seq(v.remarks));
    assert(r.dest@ == or_text(
        match app.content_type {
            ContentType::Departure => v.destination,
            ContentType::Arrival => v.origin,
        },
        "N/A"@,
    ));
    r
}

/// The notice lines: a bullet before each notice.
pub open spec fn notice_seq(n: Seq<char>) -> Seq<char> {
    "• "@ + n
}

/// The lines of the notices box, one per notice.
pub fn notice_lines(notices: &Vec<Remark>) -> (r: Vec<String>)
    ensures
        r@.len() == notices@.len(),
        forall|i: int| 0 <= i < r@.len() ==> (#[trigger] r@[i])@ == notice_seq(notices@[i].text.default@),
{
    let mut r: Vec<String> = Vec::new();
    let mut i: usize = 0;
    while i < notices.len()
        invariant
            i <= notices.len(),
            r@.len() == i,
            forall|k: int| 0 <= k < i ==> (#[trigger] r@[k])@ == notice_seq(notices@[k].text.default@),
        decreases notices.len() - i,
    {
        let mut line = copy_str("• ");
        line.append(notices[i].text.default.as_str());
        r.push(line);
        i += 1;
    }
    r
}

/// The status text and its colour.
pub open spec fn status_of(tr: Tr, c: ConnectionState, last: Option<crate::time::ClockTime>) -> (Seq<char>, Color) {
    match c {
        ConnectionState::Connected => match last {
            Some(t) => (hh_mm_ss_seq(t), Color::White),
            None => (tr.connected@, Color::Green),
        },
        ConnectionState::Connecting => (tr.connecting@, Color::Yellow),
        ConnectionState::Failed => (tr.connection_failed@, Color::Red),
    }
}

/// The status line: the time of the last update, or the connection state.
pub fn status_text(app: &App) -> (r: (String, Color))
    requires
        app.last_update matches Some(t) ==> t.wf(),
    ensures
        (r.0@, r.1) == status_of(app.lang.tr_spec(), app.connection, app.last_update),
{
    let tr = app.lang.tr();
    match app.connection {
        ConnectionState::Connected => match app.last_update {
            Some(t) => (clock_hh_mm_ss(t), Color::White),
            None => (copy_str(tr.connected), Color::Green),
        },
        ConnectionState::Connecting => (copy_str(tr.connecting), Color::Yellow),
        ConnectionState::Failed => (copy_str(tr.connection_failed), Color::Red),
    }
}

/// The key hints of the status line.
pub open spec fn shortcut_seq(tr: Tr) -> Seq<(Seq<char>, Style)> {
    let key = |s: Seq<char>| (s, strong(Color::Green));
    let raw = |s: Seq<char>| (s, plain());
    seq![
        key("1-9,0"@),
        raw("/"@),
        key("↑↓"@),
        raw("+"@),
        key("Enter"@),
        raw(" "@ + tr.detail@ + " "@),
        key("[A]"@),
        raw(tr.hint_arr@ + " "@),
        key("[D]"@),
        raw(tr.hint_dep@ + " "@),
        key("[S]"@),
        raw(tr.hint_stn@ + " "@),
        key("[R]"@),
        raw(tr.hint_ref@ + " "@),
        key("[L]"@),
        raw(tr.hint_lang@ + " "@),
        ("[Q]"@, strong(Color::Red)),
        raw(tr.hint_quit@),
    ]
}

/// `text` followed by a space.
fn with_space(text: &str) -> (r: String)
    ensures
        r@ == text@ + " "@,
{
    let mut r = copy_str(text);
    r.append(" ");
    r
}

/// The key hints of the status line.
pub fn shortcut_spans(tr: &Tr) -> (r: Vec<Span>)
    ensures
        r.deep_view() == shortcut_seq(*tr),
{
    let key = strong_style(Color::Green);
    let raw = plain_style();
    let mut r: Vec<Span> = Vec::new();
    r.push(span_of("1-9,0", key));
    r.push(span_of("/", raw));
    r.push(span_of("↑↓", key));
    r.push(span_of("+", raw));
    r.push(span_of("Enter", key));
    let mut d = copy_str(" ");
    d.append(tr.detail);
    d.append(" ");
    r.push(Span { text: d, style: raw });
    r.push(span_of("[A]", key));
    r.push(Span { text: with_space(tr.hint_arr), style: raw });
    r.push(span_of("[D]", key));
    r.push(Span { text: with_space(tr.hint_dep), style: raw });
    r.push(span_of("[S]", key));
    r.push(Span { text: with_space(tr.hint_stn), style: raw });
    r.push(span_of("[R]", key));
    r.push(Span { text: with_space(tr.hint_ref), style: raw });
    r.push(span_of("[L]", key));
    r.push(Span { text: with_space(tr.hint_lang), style: raw });
    r.push(span_of("[Q]", strong_style(Color::Red)));
    r.push(span_of(tr.hint_quit, raw));
    assert(r.deep_view() =~= shortcut_seq(*tr));
    r
}

/// Where the key hints go within the status box at `x`, `y` of width
/// `width`: 64 columns wide, right-aligned two columns in from the edge, one
/// row down; `None` when the box is too narrow.
pub fn shortcut_origin(x: u16, y: u16, width: u16) -> (r: Option<(u16, u16)>)
    requires
        x + (if width >= 66 { width - 66 } else { 0 }) <= u16::MAX,
        y + 1 <= u16::MAX,
    ensures
        r == if width > 66 {
            Some(((x + width - 66) as u16, (y + 1) as u16))
        } else {
            None
        },
{
    let sx = x + width.saturating_sub(64 + 2);
    if sx > x {
        Some((sx, y + 1))
    } else {
        None
    }
}

// ---------------------------------------------------------------------------
// Station picker
// ---------------------------------------------------------------------------

/// The search field: the label, the search text and a cursor.
pub open spec fn search_line_seq(tr: Tr, search: Seq<char>) -> Seq<char> {
    tr.search@ + search + "_"@
}

/// The search field of the station picker.
pub fn search_line(app: &App) -> (r: String)
    ensures
        r@ == search_line_seq(app.lang.tr_spec(), app.station_search@),
{
    let tr = app.lang.tr();
    let mut r = copy_str(tr.search);
    r.append(app.station_search.as_str());
    r.append("_");
    r
}

/// A number right-aligned in two columns.
pub open spec fn pad2_seq(n: nat) -> Seq<char> {
    if n < 10 {
        " "@ + decimal_seq(n)
    } else {
        decimal_seq(n)
    }
}

/// A row of the station list: its number, a dot and the name.
pub open spec fn station_item_seq(i: nat, name: Seq<char>) -> Seq<char> {
    pad2_seq(i + 1) + ". "@ + name
}

/// The rows of the station list.
pub fn station_items(app: &App) -> (r: Vec<String>)
    ensures
        r@.len() == app.filtered_stations@.len(),
        forall|i: int| 0 <= i < r@.len() ==> (#[trigger] r@[i])@ == station_item_seq(i as nat, app.filtered_stations@[i].1@),
{
    let mut r: Vec<String> = Vec::new();
    let mut i: usize = 0;
    while i < app.filtered_stations.len()
        invariant
            i <= app.filtered_stations@.len(),
            r@.len() == i,
            forall|k: int| 0 <= k < i ==> (#[trigger] r@[k])@ == station_item_seq(k as nat, app.filtered_stations@[k].1@),
        decreases app.filtered_stations@.len() - i,
    {
        let mut line = String::new();
        if i + 1 < 10 {
            line.append(" ");
        }
        push_decimal(&mut line, (i + 1) as u64);
        line.append(". ");
        line.append(app.filtered_stations[i].1.as_str());
        assert(line@ =~= station_item_seq(i as nat, app.filtered_stations@[i as int].1@));
        r.push(line);
        i += 1;
    }
    r
}

/// The title of the station list: how many are shown, and of how many when
/// more match.
pub open spec fn station_title_seq(tr: Tr, shown: nat, total: nat) -> Seq<char> {
    if total > shown {
        tr.stations@ + " ("@ + decimal_seq(shown) + " "@ + tr.of@ + " "@ + decimal_seq(total) + " "@
            + tr.shown@ + ")"@
    } else {
        tr.stations@ + " ("@ + decimal_seq(shown) + ")"@
    }
}

/// The title of the station list.
pub fn station_list_title(app: &App) -> (r: String)
    ensures
        r@ == station_title_seq(app.lang.tr_spec(), app.filtered_stations@.len(), app.total_filtered_count as nat),
{
    let tr = app.lang.tr();
    let shown = app.filtered_stations.len();
    let mut r = copy_str(tr.stations);
    r.append(" (");
    push_decimal(&mut r, shown as u64);
    if app.total_filtered_count > shown {
        r.append(" ");
        r.append(tr.of);
        r.append(" ");
        push_decimal(&mut r, app.total_filtered_count as u64);
        r.append(" ");
        r.append(tr.shown);
    }
    r.append(")");
    r
}

// ---------------------------------------------------------------------------
// Popup placement
// ---------------------------------------------------------------------------

/// A rectangle of terminal cells.
#[derive(Clone, Copy, PartialEq, Eq, Structural, Debug)]
pub struct Area {
    pub x: u16,
    pub y: u16,
    pub width: u16,
    pub height: u16,
}

/// One past the last cell of a span that starts at `start` and is `len` cells
/// long, clamped to `u16::MAX` as ratatui's `Rect::right` and `Rect::bottom` are.
pub open spec fn span_end(start: u16, len: u16) -> int {
    if start + len > u16::MAX {
        u16::MAX as int
    } else {
        start + len
    }
}

/// The span `start`, `len` lies within the span `outer_start`, `outer_len`.
pub open spec fn within(start: u16, len: u16, outer_start: u16, outer_len: u16) -> bool {
    outer_start <= start && start + len <= span_end(outer_start, outer_len)
}

/// `cells` lies within one cell of `hundredths / 100`.
pub open spec fn within_one_cell(cells: u16, hundredths: int) -> bool {
    -100 <= cells * 100 - hundredths <= 100
}

/// Calls ratatui's `Layout::split` (no margin, the default `Flex::Start`) with
/// three `Constraint::Percentage` constraints and reads the middle area. The
/// split is solved with floating-point arithmetic and its outcome rounded to
/// whole cells, which the contract does not fix to the cell. It states what
/// every outcome meets, as `try_split` and `changes_to_rects` build it: the
/// area keeps the other axis of `area` whole and lies within `area` along the
/// split axis; and when the percentages add up to at most 100 and the area does
/// not reach past `u16::MAX`, the middle area starts within one cell of
/// `first` percent into the split axis and is `middle` percent of its length,
/// within one cell.
#[verifier::external_body]
fn split_middle(vertical: bool, first: u16, middle: u16, last: u16, area: (u16, u16, u16, u16)) -> (r: (u16, u16, u16, u16))
    ensures
        vertical ==> r.0 == area.0 && r.2 == area.2 && within(r.1, r.3, area.1, area.3),
        !vertical ==> r.1 == area.1 && r.3 == area.3 && within(r.0, r.2, area.0, area.2),
        vertical && first + middle + last <= 100 && area.1 + area.3 <= u16::MAX ==> within_one_cell(r.1, area.1 * 100 + area.3 * first)
            && within_one_cell(r.3, area.3 * middle),
        !vertical && first + middle + last <= 100 && area.0 + area.2 <= u16::MAX ==> within_one_cell(r.0, area.0 * 100 + area.2 * first)
            && within_one_cell(r.2, area.2 * middle),
{
    let direction = if vertical { Direction::Vertical } else { Direction::Horizontal };
    let rects = Layout::default()
        .direction(direction)
        .constraints([Constraint::Percentage(first), Constraint::Percentage(middle), Constraint::Percentage(last)])
        .split(Rect { x: area.0, y: area.1, width: area.2, height: area.3 });
    (rects[1].x, rects[1].y, rects[1].width, rects[1].height)
}

/// The three percentages a popup of `percent` splits an axis into: equal
/// margins on both sides, `(100 - percent) / 2` each, and `percent` between.
pub fn split_percentages(percent: u16) -> (r: (u16, u16, u16))
    requires
        percent <= 100,
    ensures
        r.0 == (100 - percent) / 2,
        r.1 == percent,
        r.2 == (100 - percent) / 2,
{
    let side = (100 - percent) / 2;
    (side, percent, side)
}

/// Compute a rectangle centred within `r`, sized as the given percentages of
/// its width and height: the middle row of a vertical split with the margins
/// `(100 - percent_y) / 2`, then the middle column of that row split likewise.
/// It always lies within `r`; where `r` does not reach past `u16::MAX`, it is
/// `percent_x` by `percent_y` percent of `r` and starts after the margin, each
/// within one cell (ratatui rounds its solution to whole cells).
pub fn centered_rect(percent_x: u16, percent_y: u16, r: Area) -> (c: Area)
    requires
        percent_x <= 100,
        percent_y <= 100,
    ensures
        within(c.x, c.width, r.x, r.width),
        within(c.y, c.height, r.y, r.height),
        r.x + r.width <= u16::MAX ==> within_one_cell(c.x, r.x * 100 + r.width * ((100 - percent_x) / 2))
            && within_one_cell(c.width, r.width * percent_x),
        r.y + r.height <= u16::MAX ==> within_one_cell(c.y, r.y * 100 + r.height * ((100 - percent_y) / 2))
            && within_one_cell(c.height, r.height * percent_y),
{
    let (top, mid_y, bottom) = split_percentages(percent_y);
    let row = split_middle(true, top, mid_y, bottom, (r.x, r.y, r.width, r.height));
    let (left, mid_x, right) = split_percentages(percent_x);
    let col = split_middle(false, left, mid_x, right, row);
    Area { x: col.0, y: col.1, width: col.2, height: col.3 }
}

} // verus!
