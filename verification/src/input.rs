//! Key handling: how one key press changes the application state and what
//! the program must do next (quit, reconnect, save the language).

use vstd::prelude::*;
use crate::app::{relative_ok, App, AppMode, ContentType};
use crate::lang::{other, Lang};

verus! {

/// A key press, as far as the program tells keys apart.
#[derive(Clone, Copy, PartialEq, Eq, Structural, Debug)]
pub enum Key {
    Char(char),
    Up,
    Down,
    Enter,
    Esc,
    PageUp,
    PageDown,
    Backspace,
    Other,
}

/// What the program does after a key press.
#[derive(Clone, Copy, PartialEq, Eq, Structural, Debug)]
pub enum Command {
    /// Keep running.
    Stay,
    /// Leave the program.
    Quit,
    /// Re-fetch the board (station or direction changed, or refresh asked).
    Reconnect,
    /// The language changed; persist it for the next launch.
    SaveLanguage(Lang),
}

/// `c` is `lower` or its upper-case letter.
pub open spec fn is_letter(c: char, lower: char) -> bool {
    c == lower || (c as u32) == (lower as u32) - 32
}

/// `c` is a decimal digit.
pub open spec fn is_digit(c: char) -> bool {
    '0' <= c && c <= '9'
}

/// The train a digit key opens: `1`..`9` the first nine, `0` the tenth.
pub open spec fn digit_index(c: char) -> int {
    if c == '0' {
        9
    } else {
        (c as u32) - ('1' as u32)
    }
}

/// The state in which a key press cannot overflow the train selection.
pub open spec fn key_ok(a: App, key: Key) -> bool {
    a.mode != AppMode::StationSelect ==> {
        &&& key == Key::Up ==> relative_ok(a, -1i32)
        &&& key == Key::Down ==> relative_ok(a, 1i32)
    }
}

/// `b` is `a` with the train at index `i` opened in the detail view, its id
/// tracked (`None` when `i` is past the end of the board), scrolled to the top.
pub open spec fn open_detail(a: App, b: App, i: int) -> bool {
    b == App {
        selected_train_index: Some(i as usize),
        selected_train_id: if 0 <= i < a.items@.len() {
            Some(a.items@[i].id)
        } else {
            None
        },
        detail_scroll: 0,
        mode: AppMode::TrainDetail,
        ..a
    }
}

/// The language switched.
pub open spec fn toggled(a: App, b: App, cmd: Command) -> bool {
    &&& b == App { lang: other(a.lang), ..a }
    &&& cmd == Command::SaveLanguage(other(a.lang))
}

/// A key press in the main board.
pub open spec fn normal_step(a: App, b: App, key: Key, cmd: Command) -> bool {
    match key {
        Key::Char(c) => if is_letter(c, 'q') {
            b == a && cmd == Command::Quit
        } else if is_letter(c, 'a') {
            b == App { content_type: ContentType::Arrival, ..a } && cmd == Command::Reconnect
        } else if is_letter(c, 'd') {
            b == App { content_type: ContentType::Departure, ..a } && cmd == Command::Reconnect
        } else if is_letter(c, 's') {
            App::enter_step(a, b) && cmd == Command::Stay
        } else if is_letter(c, 'r') {
            b == a && cmd == Command::Reconnect
        } else if is_digit(c) {
            &&& cmd == Command::Stay
            &&& if digit_index(c) < a.items@.len() {
                open_detail(a, b, digit_index(c))
            } else {
                b == a
            }
        } else if is_letter(c, 'l') {
            toggled(a, b, cmd)
        } else {
            b == a && cmd == Command::Stay
        },
        Key::Up => App::relative_step(a, b, -1i32) && cmd == Command::Stay,
        Key::Down => App::relative_step(a, b, 1i32) && cmd == Command::Stay,
        Key::Enter => {
            &&& cmd == Command::Stay
            &&& match a.selected_train_index {
                Some(i) => open_detail(a, b, i as int),
                None => b == a,
            }
        },
        _ => b == a && cmd == Command::Stay,
    }
}

/// A key press in the train detail view.
pub open spec fn detail_step(a: App, b: App, key: Key, cmd: Command) -> bool {
    match key {
        Key::Esc => b == App { selected_train_id: None, mode: AppMode::Normal, ..a } && cmd
            == Command::Stay,
        Key::Char(c) => if is_letter(c, 'q') {
            b == App { selected_train_id: None, mode: AppMode::Normal, ..a } && cmd == Command::Stay
        } else if is_letter(c, 'l') {
            toggled(a, b, cmd)
        } else {
            b == a && cmd == Command::Stay
        },
        Key::Up => App::relative_step(a, b, -1i32) && cmd == Command::Stay,
        Key::Down => App::relative_step(a, b, 1i32) && cmd == Command::Stay,
        Key::PageUp => b == App {
            detail_scroll: if a.detail_scroll >= 3 {
                (a.detail_scroll - 3) as u16
            } else {
                0
            },
            ..a
        } && cmd == Command::Stay,
        Key::PageDown => b == App {
            detail_scroll: if a.detail_scroll + 3 > u16::MAX {
                u16::MAX
            } else {
                (a.detail_scroll + 3) as u16
            },
            ..a
        } && cmd == Command::Stay,
        _ => b == a && cmd == Command::Stay,
    }
}

/// The search text changed to `s`, and the list with it.
pub open spec fn searched(a: App, b: App, s: Seq<char>) -> bool {
    &&& b.station_search@ == s
    &&& App::filter_step(App { station_search: b.station_search, ..a }, b)
}

/// A key press in the station picker.
pub open spec fn select_step(a: App, b: App, key: Key, cmd: Command) -> bool {
    let i = match a.station_list_state.selected {
        Some(i) => i as int,
        None => 0,
    };
    match key {
        Key::Esc => b == App { mode: AppMode::Normal, ..a } && cmd == Command::Stay,
        Key::Enter => exists|r: bool| App::choose_step(a, b, r) && cmd == if r {
            Command::Reconnect
        } else {
            Command::Stay
        },
        Key::Up => cmd == Command::Stay && if i > 0 {
            b == App { station_list_state: crate::app::ListSelection { selected: Some((i - 1) as usize) }, ..a }
        } else {
            b == a
        },
        Key::Down => cmd == Command::Stay && if i + 1 < a.filtered_stations@.len() {
            b == App { station_list_state: crate::app::ListSelection { selected: Some((i + 1) as usize) }, ..a }
        } else {
            b == a
        },
        Key::Char(c) => cmd == Command::Stay && searched(a, b, a.station_search@.push(c)),
        Key::Backspace => cmd == Command::Stay && searched(
            a,
            b,
            if a.station_search@.len() > 0 {
                a.station_search@.drop_last()
            } else {
                a.station_search@
            },
        ),
        _ => b == a && cmd == Command::Stay,
    }
}

/// What a key press does in the current mode.
pub open spec fn key_step(a: App, b: App, key: Key, cmd: Command) -> bool {
    match a.mode {
        AppMode::Normal => normal_step(a, b, key, cmd),
        AppMode::TrainDetail => detail_step(a, b, key, cmd),
        AppMode::StationSelect => select_step(a, b, key, cmd),
    }
}

fn letter(c: char, lower: char) -> (r: bool)
    requires
        'a' <= lower <= 'z',
    ensures
        r == is_letter(c, lower),
{
    c == lower || (c as u32) == (lower as u32) - 32
}

/// Apply a single key press to the app state. The answer says whether to keep
/// running, quit, reconnect, or save a changed language.
pub fn handle_key(app: &mut App, key: Key) -> (cmd: Command)
    requires
        key_ok(*old(app), key),
    ensures
        key_step(*old(app), *final(app), key, cmd),
{
    match app.mode {
        AppMode::Normal => match key {
            Key::Char(c) => {
                if letter(c, 'q') {
                    Command::Quit
                } else if letter(c, 'a') {
                    app.content_type = ContentType::Arrival;
                    Command::Reconnect
                } else if letter(c, 'd') {
                    app.content_type = ContentType::Departure;
                    Command::Reconnect
                } else if letter(c, 's') {
                    app.enter_station_select();
                    Command::Stay
                } else if letter(c, 'r') {
                    Command::Reconnect
                } else if '0' <= c && c <= '9' {
                    let index: usize = if c == '0' {
                        9
                    } else {
                        (c as u32 - '1' as u32) as usize
                    };
                    if index < app.items.len() {
                        let id = app.items[index].id.clone();
                        app.selected_train_index = Some(index);
                        app.selected_train_id = Some(id);
                        app.detail_scroll = 0;
                        app.mode = AppMode::TrainDetail;
                    }
                    Command::Stay
                } else if letter(c, 'l') {
                    app.lang = app.lang.toggle();
                    Command::SaveLanguage(app.lang)
                } else {
                    Command::Stay
                }
            },
            Key::Up => {
                app.select_relative(-1);
                Command::Stay
            },
            Key::Down => {
                app.select_relative(1);
                Command::Stay
            },
            Key::Enter => {
                if let Some(idx) = app.selected_train_index {
                    let id = if idx < app.items.len() {
                        Some(app.items[idx].id.clone())
                    } else {
                        None
                    };
                    app.selected_train_id = id;
                    app.detail_scroll = 0;
                    app.mode = AppMode::TrainDetail;
                }
                Command::Stay
            },
            _ => Command::Stay,
        },
        AppMode::TrainDetail => match key {
            Key::Esc => {
                app.selected_train_id = None;
                app.mode = AppMode::Normal;
                Command::Stay
            },
            Key::Char(c) => {
                if letter(c, 'q') {
                    app.selected_train_id = None;
                    app.mode = AppMode::Normal;
                    Command::Stay
                } else if letter(c, 'l') {
                    app.lang = app.lang.toggle();
                    Command::SaveLanguage(app.lang)
                } else {
                    Command::Stay
                }
            },
            Key::Up => {
                app.select_relative(-1);
                Command::Stay
            },
            Key::Down => {
                app.select_relative(1);
                Command::Stay
            },
            Key::PageUp => {
                app.detail_scroll = app.detail_scroll.saturating_sub(3);
                Command::Stay
            },
            Key::PageDown => {
                app.detail_scroll = app.detail_scroll.saturating_add(3);
                Command::Stay
            },
            _ => Command::Stay,
        },
        AppMode::StationSelect => match key {
            Key::Esc => {
                app.exit_station_select();
                Command::Stay
            },
            Key::Enter => {
                if app.select_station() {
                    Command::Reconnect
                } else {
                    Command::Stay
                }
            },
            Key::Up => {
                let i = match app.station_list_state.selected() {
                    Some(i) => i,
                    None => 0,
                };
                if i > 0 {
                    app.station_list_state.select(Some(i - 1));
                }
                Command::Stay
            },
            Key::Down => {
                let i = match app.station_list_state.selected() {
                    Some(i) => i,
                    None => 0,
                };
                if i < app.filtered_stations.len().saturating_sub(1) {
                    app.station_list_state.select(Some(i + 1));
                }
                Command::Stay
            },
            Key::Char(c) => {
                app.station_search.push(c);
                app.update_filtered_stations();
                Command::Stay
            },
            Key::Backspace => {
                app.station_search.pop();
                app.update_filtered_stations();
                Command::Stay
            },
            _ => Command::Stay,
        },
    }
}

} // verus!
