//! Application state and the logic that operates on it.
//!
//! [`App`] is the single source of truth that the input loop and the live
//! connection share. Its methods are the state changes the program makes:
//! opening and filtering the station picker, choosing a station, moving the
//! train selection. [`build_ws_url`] names the feed page to connect to.

use vstd::prelude::*;
use crate::lang::Lang;
use crate::model::{SpecialNotice, TrainItem};
use crate::sort::{sort_by_key, sort_by_key_exec, SortKey};
use crate::stations::{load_stations, station_table_of};
use crate::text::{chars_of, contains_chars, contains_seq, copy_str, decimal_seq, lowercase, push_decimal, to_lowercase};
use crate::time::ClockTime;

verus! {

broadcast use vstd::string::group_string_axioms;

/// Which board to display: departures or arrivals.
#[derive(Clone, Copy, PartialEq, Eq, Structural, Debug)]
pub enum ContentType {
    Departure,
    Arrival,
}

/// The active screen, which determines both rendering and key handling.
#[derive(Clone, Copy, PartialEq, Eq, Structural, Debug)]
pub enum AppMode {
    Normal,
    StationSelect,
    TrainDetail,
}

/// Live-connection status, surfaced in the status bar.
#[derive(Clone, Copy, PartialEq, Eq, Structural, Debug)]
pub enum ConnectionState {
    Connecting,
    Connected,
    /// All page connections failed; the UI renders a translated message.
    Failed,
}

/// The highlighted row of the station list.
#[derive(Clone, Copy, PartialEq, Eq, Structural, Debug)]
pub struct ListSelection {
    pub selected: Option<usize>,
}

impl ListSelection {
    /// Nothing highlighted.
    pub fn new() -> (r: ListSelection)
        ensures
            r.selected is None,
    {
        ListSelection { selected: None }
    }

    /// The highlighted row.
    pub fn selected(&self) -> (r: Option<usize>)
        ensures
            r == self.selected,
    {
        self.selected
    }

    /// Highlight a row, or none.
    pub fn select(&mut self, index: Option<usize>)
        ensures
            final(self).selected == index,
    {
        self.selected = index;
    }
}

/// The complete application state.
pub struct App {
    pub content_type: ContentType,
    pub station_id: String,
    pub station_name: String,
    pub items: Vec<TrainItem>,
    pub special_notices: Vec<SpecialNotice>,
    /// Local wall-clock time of the last board update.
    pub last_update: Option<ClockTime>,
    pub connection: ConnectionState,
    pub mode: AppMode,
    /// Station id and name, each id once.
    pub stations: Vec<(String, String)>,
    pub all_stations_sorted: Vec<(String, String)>,
    pub filtered_stations: Vec<(String, String)>,
    pub total_filtered_count: usize,
    pub station_search: String,
    pub station_list_state: ListSelection,
    pub max_pages: usize,
    pub selected_train_index: Option<usize>,
    pub selected_train_id: Option<String>,
    pub detail_scroll: u16,
    pub lang: Lang,
}

/// Stations sort by name.
impl SortKey for (String, String) {
    open spec fn sort_key(&self) -> Seq<char> {
        self.1@
    }

    fn key_chars(&self) -> (r: Vec<char>) {
        chars_of(self.1.as_str())
    }
}

/// The most stations the picker lists.
pub const MAX_LISTED: usize = 20;

/// The stations whose lower-cased name contains `query`, in table order.
pub open spec fn matching(s: Seq<(String, String)>, query: Seq<char>) -> Seq<(String, String)>
    decreases s.len(),
{
    if s.len() == 0 {
        s
    } else {
        let rest = matching(s.drop_last(), query);
        if contains_seq(lowercase(s.last().1@), query) {
            rest.push(s.last())
        } else {
            rest
        }
    }
}

/// `x` kept within `lo..=hi` (`i32::clamp` for `lo <= hi`).
pub open spec fn clamp(x: int, lo: int, hi: int) -> int {
    if x < lo {
        lo
    } else if x > hi {
        hi
    } else {
        x
    }
}

/// Moving the train selection by `delta` does not overflow an `i32`.
pub open spec fn relative_ok(a: App, delta: i32) -> bool {
    a.items@.len() > 0 ==> {
        &&& a.items@.len() <= i32::MAX
        &&& a.selected_train_index matches Some(i) ==> i32::MIN <= (i as i32) + delta <= i32::MAX
    }
}

/// The train index that moving the selection by `delta` lands on: the old
/// index moved and kept within the list, or the first train when none was
/// selected.
pub open spec fn relative_target(a: App, delta: i32) -> int {
    match a.selected_train_index {
        Some(i) => clamp((i as i32) + delta, 0, a.items@.len() - 1),
        None => 0,
    }
}

impl App {
    /// `b` is `a` after [`App::enter_station_select`]: the picker open with an
    /// empty search, the list recomputed, the first row highlighted.
    pub open spec fn enter_step(a: App, b: App) -> bool {
        &&& b.station_search@.len() == 0
        &&& (b.filtered_stations@, b.total_filtered_count as nat) == search_result(
            b.station_search@,
            a.stations@,
            a.all_stations_sorted@,
        )
        &&& b == App {
            mode: AppMode::StationSelect,
            station_search: b.station_search,
            filtered_stations: b.filtered_stations,
            total_filtered_count: b.total_filtered_count,
            station_list_state: ListSelection { selected: Some(0) },
            ..a
        }
    }

    /// Whether the picker has a highlighted row within the list.
    pub open spec fn has_choice(a: App) -> bool {
        a.station_list_state.selected matches Some(i) && i < a.filtered_stations@.len()
    }

    /// `b` is `a` after [`App::select_station`], which answered `r`: the
    /// highlighted station becomes the active one and the picker closes, or,
    /// without a highlighted row in the list, nothing changes.
    pub open spec fn choose_step(a: App, b: App, r: bool) -> bool {
        &&& r == App::has_choice(a)
        &&& r ==> {
            let e = a.filtered_stations@[a.station_list_state.selected.unwrap() as int];
            b == App { station_id: e.0, station_name: e.1, mode: AppMode::Normal, ..a }
        }
        &&& !r ==> b == a
    }

    /// `b` is `a` after [`App::select_relative`] by `delta`.
    pub open spec fn relative_step(a: App, b: App, delta: i32) -> bool {
        if a.items@.len() == 0 {
            b == a
        } else {
            let t = relative_target(a, delta);
            b == App {
                selected_train_index: Some(t as usize),
                selected_train_id: Some(a.items@[t].id),
                detail_scroll: 0,
                ..a
            }
        }
    }
}

/// The first `n` elements, or all of them if there are fewer.
pub open spec fn first_n<T>(s: Seq<T>, n: nat) -> Seq<T> {
    if s.len() <= n {
        s
    } else {
        s.take(n as int)
    }
}

/// The stations a search lists and how many match in all: with an empty
/// search, the first ones of the sorted table; otherwise the stations whose
/// lower-cased name contains the lower-cased search, sorted by name.
pub open spec fn search_result(
    search: Seq<char>,
    stations: Seq<(String, String)>,
    sorted: Seq<(String, String)>,
) -> (Seq<(String, String)>, nat) {
    if search.len() == 0 {
        (first_n(sorted, MAX_LISTED as nat), sorted.len())
    } else {
        let m = sort_by_key(matching(stations, lowercase(search)));
        (first_n(m, MAX_LISTED as nat), m.len())
    }
}

/// A copy of a station entry.
fn dup_station(e: &(String, String)) -> (r: (String, String))
    ensures
        r == *e,
{
    (e.0.clone(), e.1.clone())
}

/// Copies of the first `n` stations of `v`.
fn first_stations(v: &Vec<(String, String)>, n: usize) -> (r: Vec<(String, String)>)
    requires
        n <= v.len(),
    ensures
        r@ == v@.take(n as int),
{
    let mut r: Vec<(String, String)> = Vec::new();
    let mut i: usize = 0;
    while i < n
        invariant
            i <= n <= v.len(),
            r@ == v@.take(i as int),
        decreases n - i,
    {
        r.push(dup_station(&v[i]));
        i += 1;
        assert(r@ =~= v@.take(i as int));
    }
    r
}

/// Copies of the stations whose lower-cased name contains `query`.
fn matching_stations(v: &Vec<(String, String)>, query: &Vec<char>) -> (r: Vec<(String, String)>)
    ensures
        r@ == matching(v@, query@),
{
    let mut r: Vec<(String, String)> = Vec::new();
    let mut i: usize = 0;
    while i < v.len()
        invariant
            i <= v.len(),
            r@ == matching(v@.take(i as int), query@),
        decreases v.len() - i,
    {
        assert(v@.take(i + 1).drop_last() =~= v@.take(i as int));
        let low = to_lowercase(v[i].1.as_str());
        let lc = chars_of(low.as_str());
        if contains_chars(&lc, query) {
            r.push(dup_station(&v[i]));
        }
        i += 1;
    }
    assert(v@.take(v@.len() as int) =~= v@);
    r
}

impl App {
    /// Build the initial state for the given UI language, with the station
    /// table read from `stations_json` (a JSON object of id to name), showing
    /// departures at Wien Westbahnhof.
    pub fn new(lang: Lang, stations_json: &str) -> (r: App)
        ensures
            r.content_type == ContentType::Departure,
            r.station_id@ == "8101001"@,
            r.station_name@ == "Wien Westbahnhof"@,
            r.items@.len() == 0,
            r.special_notices@.len() == 0,
            r.last_update is None,
            r.connection == ConnectionState::Connecting,
            r.mode == AppMode::Normal,
            station_table_of(r.stations@, stations_json@),
            r.all_stations_sorted@ == sort_by_key(r.stations@),
            r.filtered_stations@.len() == 0,
            r.total_filtered_count == 0,
            r.station_search@.len() == 0,
            r.station_list_state.selected is None,
            r.max_pages == 5,
            r.selected_train_index is None,
            r.selected_train_id is None,
            r.detail_scroll == 0,
            r.lang == lang,
    {
        let stations = load_stations(stations_json);
        let copy = first_stations(&stations, stations.len());
        assert(stations@.take(stations@.len() as int) =~= stations@);
        let sorted = sort_by_key_exec(copy);
        App {
            content_type: ContentType::Departure,
            station_id: copy_str("8101001"),
            station_name: copy_str("Wien Westbahnhof"),
            items: Vec::new(),
            special_notices: Vec::new(),
            last_update: None,
            connection: ConnectionState::Connecting,
            mode: AppMode::Normal,
            stations,
            all_stations_sorted: sorted,
            filtered_stations: Vec::new(),
            total_filtered_count: 0,
            station_search: String::new(),
            station_list_state: ListSelection::new(),
            max_pages: 5,
            selected_train_index: None,
            selected_train_id: None,
            detail_scroll: 0,
            lang,
        }
    }

    /// Open the station picker with a cleared search field.
    pub fn enter_station_select(&mut self)
        ensures
            App::enter_step(*old(self), *final(self)),
    {
        self.mode = AppMode::StationSelect;
        self.station_search = String::new();
        self.update_filtered_stations();
        self.station_list_state.select(Some(0));
    }

    /// Close the station picker, returning to the main board.
    pub fn exit_station_select(&mut self)
        ensures
            *final(self) == (App { mode: AppMode::Normal, ..*old(self) }),
    {
        self.mode = AppMode::Normal;
    }

    /// Commit the highlighted station as the active one. Returns `true` if a
    /// selection was made (so the caller can trigger a reconnect).
    pub fn select_station(&mut self) -> (r: bool)
        ensures
            App::choose_step(*old(self), *final(self), r),
    {
        if let Some(selected) = self.station_list_state.selected() {
            if selected < self.filtered_stations.len() {
                let id = self.filtered_stations[selected].0.clone();
                let name = self.filtered_stations[selected].1.clone();
                self.station_id = id;
                self.station_name = name;
                self.exit_station_select();
                return true;
            }
        }
        false
    }

    /// Move the train selection by `delta`, clamped to the bounds of the list,
    /// keeping the tracked id in sync and resetting the detail scroll.
    pub fn select_relative(&mut self, delta: i32)
        requires
            relative_ok(*old(self), delta),
        ensures
            App::relative_step(*old(self), *final(self), delta),
    {
        if self.items.len() == 0 {
            return;
        }
        let last: i32 = (self.items.len() - 1) as i32;
        let new: i32 = match self.selected_train_index {
            Some(idx) => {
                let moved: i32 = idx as i32 + delta;
                if moved < 0 {
                    0
                } else if moved > last {
                    last
                } else {
                    moved
                }
            },
            None => 0,
        };
        let n = new as usize;
        let id = self.items[n].id.clone();
        self.selected_train_index = Some(n);
        self.selected_train_id = Some(id);
        self.detail_scroll = 0;
    }

    /// Recompute [`Self::filtered_stations`] from the current search string,
    /// capping the visible list at 20 entries while tracking the total match
    /// count for the header.
    pub fn update_filtered_stations(&mut self)
        ensures
            App::filter_step(*old(self), *final(self)),
    {
        if self.station_search.as_str().is_empty() {
            self.total_filtered_count = self.all_stations_sorted.len();
            let take = if self.all_stations_sorted.len() < MAX_LISTED {
                self.all_stations_sorted.len()
            } else {
                MAX_LISTED
            };
            self.filtered_stations = first_stations(&self.all_stations_sorted, take);
            assert(take == self.all_stations_sorted@.len() ==> self.all_stations_sorted@.take(take as int) =~= self.all_stations_sorted@);
        } else {
            let low = to_lowercase(self.station_search.as_str());
            let q = chars_of(low.as_str());
            let found = matching_stations(&self.stations, &q);
            let mut matches = sort_by_key_exec(found);
            self.total_filtered_count = matches.len();
            if matches.len() > MAX_LISTED {
                matches.truncate(MAX_LISTED);
            }
            self.filtered_stations = matches;
        }
        if self.filtered_stations.len() > 0 {
            self.station_list_state.select(Some(0));
        }
    }
}

impl App {
    /// `b` is `a` after [`App::update_filtered_stations`].
    pub open spec fn filter_step(a: App, b: App) -> bool {
        let (list, total) = search_result(a.station_search@, a.stations@, a.all_stations_sorted@);
        &&& b.filtered_stations@ == list
        &&& b.total_filtered_count == total
        &&& b.station_list_state.selected == if list.len() > 0 {
            Some(0usize)
        } else {
            a.station_list_state.selected
        }
        &&& b == App {
            filtered_stations: b.filtered_stations,
            total_filtered_count: b.total_filtered_count,
            station_list_state: b.station_list_state,
            ..a
        }
    }
}

/// The feed's name for a board.
pub open spec fn content_seq(c: ContentType) -> Seq<char> {
    match c {
        ContentType::Departure => "departure"@,
        ContentType::Arrival => "arrival"@,
    }
}

/// The WebSocket URL of one page of a station's board.
pub open spec fn ws_url_seq(station_id: Seq<char>, c: ContentType, page: nat) -> Seq<char> {
    "wss://meine.oebb.at/abfahrtankunft/webdisplay/web_client/ws/?stationId="@ + station_id
        + "&contentType="@ + content_seq(c) + "&staticLayout=false&page="@ + decimal_seq(page)
        + "&offset=0&ignoreIncident=false&expandAll=false"@
}

/// Build the WebSocket URL for one page of a station's board.
pub fn build_ws_url(station_id: &str, content_type: &ContentType, page: usize) -> (r: String)
    ensures
        r@ == ws_url_seq(station_id@, *content_type, page as nat),
{
    let content = match content_type {
        ContentType::Departure => "departure",
        ContentType::Arrival => "arrival",
    };
    let mut r = copy_str("wss://meine.oebb.at/abfahrtankunft/webdisplay/web_client/ws/?stationId=");
    r.append(station_id);
    r.append("&contentType=");
    r.append(content);
    r.append("&staticLayout=false&page=");
    push_decimal(&mut r, page as u64);
    r.append("&offset=0&ignoreIncident=false&expandAll=false");
    r
}

} // verus!
