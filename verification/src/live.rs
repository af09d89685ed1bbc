//! The decisions of the live connection.
//!
//! The program keeps one connection per board page open. What it does when
//! a page connects, fails, or delivers an update, when it (re)starts a round of
//! connections, and how long it waits before reconnecting, is decided here;
//! the network work itself happens outside the library.

use vstd::prelude::*;
use crate::app::{build_ws_url, ws_url_seq, App, ConnectionState, ContentType};
use crate::model::{dup_items, ItemView, TrainData, TrainItem, UpdateParams, WsMessage};
use crate::sort::{insert_by_key, lemma_sort_multiset, lemma_sort_sorted, sort_by_key, sort_by_key_exec, sorted_by_key, SortKey};
use crate::text::lex_le;
use crate::text::{chars_of, text_eq};
use crate::time::ClockTime;

verus! {

broadcast use {vstd::string::group_string_axioms, vstd::seq_lib::group_to_multiset_ensures};

/// Board entries sort by scheduled time (RFC 3339 text, which orders by time
/// within one offset).
impl SortKey for TrainItem {
    open spec fn sort_key(&self) -> Seq<char> {
        self.scheduled@
    }

    fn key_chars(&self) -> (r: Vec<char>) {
        chars_of(self.scheduled.as_str())
    }
}

/// Some entry of `s` has the id `id`.
pub open spec fn has_id(s: Seq<TrainItem>, id: Seq<char>) -> bool {
    exists|i: int| 0 <= i < s.len() && (#[trigger] s[i]).id@ == id
}

/// `acc` with the entries of `new` appended in order, each unless an entry with
/// its id is already there.
pub open spec fn add_unseen(acc: Seq<TrainItem>, new: Seq<TrainItem>) -> Seq<TrainItem>
    decreases new.len(),
{
    if new.len() == 0 {
        acc
    } else {
        let a = add_unseen(acc, new.drop_last());
        if has_id(a, new.last().id@) {
            a
        } else {
            a.push(new.last())
        }
    }
}

/// The entries an update brings for the board shown.
pub open spec fn fresh_items(data: TrainData, c: ContentType) -> Seq<TrainItem> {
    let list = match c {
        ContentType::Departure => data.departures,
        ContentType::Arrival => data.arrivals,
    };
    match list {
        Some(v) => v@,
        None => Seq::<TrainItem>::empty(),
    }
}

/// The first position of an entry with id `id`.
pub open spec fn id_position(s: Seq<ItemView>, id: Seq<char>) -> Option<int> {
    if exists|i: int| 0 <= i < s.len() && (#[trigger] s[i]).id == id {
        Some(
            choose|i: int|
                0 <= i < s.len() && (#[trigger] s[i]).id == id && forall|j: int|
                    0 <= j < i ==> (#[trigger] s[j]).id != id,
        )
    } else {
        None
    }
}

/// The views of a sequence of board entries.
pub open spec fn items_view(s: Seq<TrainItem>) -> Seq<ItemView> {
    Seq::new(s.len(), |i: int| s[i].deep_view())
}

/// No two entries share an id.
pub open spec fn unique_ids(s: Seq<TrainItem>) -> bool {
    forall|i: int, j: int| 0 <= i < j < s.len() ==> (#[trigger] s[i]).id@ != (#[trigger] s[j]).id@
}

/// Board entries in schedule order, no two sharing an id.
pub struct Board {
    items: Vec<TrainItem>,
}

/// What one round of page connections has gathered so far.
pub struct Session {
    /// The board entries received this round.
    pub collected: Board,
    pub update_count: u64,
    pub failed_count: usize,
    pub connected_any: bool,
}

/// The wait before reconnecting after every page closed, in seconds.
pub struct Backoff {
    pub secs: u64,
}

/// Shortest and longest wait before a reconnect, in seconds.
pub const MIN_BACKOFF: u64 = 1;

pub const MAX_BACKOFF: u64 = 30;

impl Backoff {
    /// The wait stays within its bounds.
    pub open spec fn wf(self) -> bool {
        MIN_BACKOFF <= self.secs <= MAX_BACKOFF
    }

    /// The shortest wait.
    pub fn new() -> (r: Backoff)
        ensures
            r.secs == MIN_BACKOFF,
            r.wf(),
    {
        Backoff { secs: MIN_BACKOFF }
    }

    /// A reconnect was asked for: start again from the shortest wait.
    pub fn reset(&mut self)
        ensures
            final(self).secs == MIN_BACKOFF,
            final(self).wf(),
    {
        self.secs = MIN_BACKOFF;
    }

    /// Every page closed after `update_count` updates: the wait to sleep now
    /// (the shortest if updates came, else the current one), and the next wait
    /// doubled up to the longest.
    pub fn after_all_closed(&mut self, update_count: u64) -> (sleep: u64)
        requires
            old(self).wf(),
        ensures
            sleep == if update_count > 0 {
                MIN_BACKOFF
            } else {
                old(self).secs
            },
            final(self).secs == if 2 * sleep > MAX_BACKOFF {
                MAX_BACKOFF as int
            } else {
                2 * sleep
            },
            final(self).wf(),
    {
        if update_count > 0 {
            self.secs = MIN_BACKOFF;
        }
        let sleep = self.secs;
        let doubled = sleep * 2;
        self.secs = if doubled > MAX_BACKOFF {
            MAX_BACKOFF
        } else {
            doubled
        };
        sleep
    }
}

/// The URLs of pages `1..=max_pages` of a station's board.
pub fn page_urls(station_id: &str, content_type: ContentType, max_pages: usize) -> (r: Vec<String>)
    requires
        max_pages < usize::MAX,
    ensures
        r@.len() == max_pages,
        forall|i: int| 0 <= i < max_pages ==> (#[trigger] r@[i])@ == ws_url_seq(station_id@, content_type, (i + 1) as nat),
{
    let mut r: Vec<String> = Vec::new();
    let mut page: usize = 1;
    while page <= max_pages
        invariant
            1 <= page <= max_pages + 1,
            max_pages < usize::MAX,
            r@.len() == page - 1,
            forall|i: int| 0 <= i < page - 1 ==> (#[trigger] r@[i])@ == ws_url_seq(station_id@, content_type, (i + 1) as nat),
        decreases max_pages + 1 - page,
    {
        r.push(build_ws_url(station_id, &content_type, page));
        page += 1;
    }
    r
}

/// The board data of a feed message: only `update` messages carry any.
pub fn update_params(msg: WsMessage) -> (r: Option<UpdateParams>)
    ensures
        r == if msg.method matches Some(m) && m@ == "update"@ {
            msg.params
        } else {
            None
        },
{
    match &msg.method {
        Some(m) => {
            if text_eq(m.as_str(), "update") {
                msg.params
            } else {
                None
            }
        },
        None => None,
    }
}

/// Whether an entry with id `id` is in `v`.
fn contains_id(v: &Vec<TrainItem>, id: &String) -> (r: bool)
    ensures
        r == has_id(v@, id@),
{
    let mut i: usize = 0;
    while i < v.len()
        invariant
            i <= v.len(),
            forall|j: int| 0 <= j < i ==> (#[trigger] v@[j]).id@ != id@,
        decreases v.len() - i,
    {
        if text_eq(v[i].id.as_str(), id.as_str()) {
            return true;
        }
        i += 1;
    }
    false
}

/// The first position of an entry with id `id` in `v`.
fn position_of_id(v: &Vec<TrainItem>, id: &String) -> (r: Option<usize>)
    ensures
        match r {
            Some(i) => id_position(v.deep_view(), id@) == Some(i as int),
            None => id_position(v.deep_view(), id@) is None,
        },
{
    let ghost s = v.deep_view();
    let mut i: usize = 0;
    while i < v.len()
        invariant
            i <= v.len(),
            s == v.deep_view(),
            forall|j: int| 0 <= j < i ==> (#[trigger] s[j]).id != id@,
        decreases v.len() - i,
    {
        if text_eq(v[i].id.as_str(), id.as_str()) {
            assert(s[i as int].id == id@);
            let ghost k = choose|k: int|
                0 <= k < s.len() && (#[trigger] s[k]).id == id@ && forall|j: int|
                    0 <= j < k ==> (#[trigger] s[j]).id != id@;
            assert(k == i) by {
                if k < i {
                    assert(s[k].id != id@);
                } else if k > i {
                    assert(s[i as int].id != id@);
                }
            }
            return Some(i);
        }
        i += 1;
    }
    None
}

/// `acc` with the unseen entries of `new` appended.
fn merge_unseen(acc: &mut Vec<TrainItem>, new: Vec<TrainItem>)
    ensures
        final(acc)@ == add_unseen(old(acc)@, new@),
{
    let ghost orig = new@;
    let ghost start = acc@;
    let mut src = new;
    let n = src.len();
    let mut k: usize = 0;
    assert(orig.skip(0) =~= orig);
    assert(orig.take(0) =~= Seq::<TrainItem>::empty());
    while k < n
        invariant
            n == orig.len(),
            k <= n,
            src@ == orig.skip(k as int),
            acc@ == add_unseen(start, orig.take(k as int)),
        decreases n - k,
    {
        let item = src.remove(0);
        assert(item == orig[k as int]);
        assert(src@ =~= orig.skip(k + 1));
        assert(orig.take(k + 1).drop_last() =~= orig.take(k as int));
        if !contains_id(acc, &item.id) {
            acc.push(item);
        }
        k += 1;
    }
    assert(orig.take(n as int) =~= orig);
}

/// Adding unseen entries to entries with distinct ids keeps the ids distinct,
/// keeps the earlier entries in front, and leaves every new id present.
pub proof fn lemma_add_unseen(acc: Seq<TrainItem>, new: Seq<TrainItem>)
    requires
        unique_ids(acc),
    ensures
        unique_ids(add_unseen(acc, new)),
        add_unseen(acc, new).len() >= acc.len(),
        forall|i: int| 0 <= i < acc.len() ==> #[trigger] add_unseen(acc, new)[i] == acc[i],
        forall|j: int| 0 <= j < new.len() ==> has_id(add_unseen(acc, new), (#[trigger] new[j]).id@),
    decreases new.len(),
{
    if new.len() > 0 {
        let d = new.drop_last();
        lemma_add_unseen(acc, d);
        let a = add_unseen(acc, d);
        let x = new.last();
        if !has_id(a, x.id@) {
            let r = a.push(x);
            assert forall|i: int, j: int| 0 <= i < j < r.len() implies (#[trigger] r[i]).id@ != (#[trigger] r[j]).id@ by {
                if j == a.len() {
                    assert(r[i] == a[i]);
                }
            }
            assert forall|j: int| 0 <= j < new.len() implies has_id(r, (#[trigger] new[j]).id@) by {
                if j < d.len() {
                    assert(new[j] == d[j]);
                    let k = choose|k: int| 0 <= k < a.len() && (#[trigger] a[k]).id@ == d[j].id@;
                    assert(r[k] == a[k]);
                } else {
                    assert(r[a.len() as int] == x);
                }
            }
        } else {
            assert forall|j: int| 0 <= j < new.len() implies has_id(a, (#[trigger] new[j]).id@) by {
                if j < d.len() {
                    assert(new[j] == d[j]);
                }
            }
        }
    }
}

/// Inserting by key puts the entry somewhere between the others.
proof fn lemma_insert_shape<T: SortKey>(s: Seq<T>, x: T)
    ensures
        exists|p: int| 0 <= p <= s.len() && insert_by_key(s, x) == s.take(p) + seq![x] + s.skip(p),
    decreases s.len(),
{
    if s.len() == 0 {
        assert(insert_by_key(s, x) =~= s.take(0) + seq![x] + s.skip(0));
    } else if lex_le(s.last().sort_key(), x.sort_key()) {
        assert(insert_by_key(s, x) =~= s.take(s.len() as int) + seq![x] + s.skip(s.len() as int));
    } else {
        let d = s.drop_last();
        lemma_insert_shape(d, x);
        let p = choose|p: int| 0 <= p <= d.len() && insert_by_key(d, x) == d.take(p) + seq![x] + d.skip(p);
        assert(insert_by_key(s, x) =~= s.take(p) + seq![x] + s.skip(p));
    }
}

/// Sorting entries with distinct ids keeps the ids distinct.
pub proof fn lemma_sort_unique(s: Seq<TrainItem>)
    requires
        unique_ids(s),
    ensures
        unique_ids(sort_by_key(s)),
    decreases s.len(),
{
    if s.len() > 0 {
        let d = s.drop_last();
        let x = s.last();
        assert(unique_ids(d)) by {
            assert forall|i: int, j: int| 0 <= i < j < d.len() implies (#[trigger] d[i]).id@ != (#[trigger] d[j]).id@ by {
                assert(d[i] == s[i] && d[j] == s[j]);
            }
        }
        lemma_sort_unique(d);
        let sd = sort_by_key(d);
        lemma_sort_multiset(d);
        lemma_insert_shape(sd, x);
        let p = choose|p: int| 0 <= p <= sd.len() && insert_by_key(sd, x) == sd.take(p) + seq![x] + sd.skip(p);
        let r = insert_by_key(sd, x);
        assert forall|k: int| 0 <= k < sd.len() implies (#[trigger] sd[k]).id@ != x.id@ by {
            assert(sd.contains(sd[k]));
            assert(sd.to_multiset().count(sd[k]) > 0);
            assert(d.contains(sd[k]));
            let m = choose|m: int| 0 <= m < d.len() && d[m] == sd[k];
            assert(s[m] == d[m]);
            assert(s[s.len() - 1] == x);
        }
        assert forall|i: int, j: int| 0 <= i < j < r.len() implies (#[trigger] r[i]).id@ != (#[trigger] r[j]).id@ by {
            let at = |k: int| if k < p { sd[k] } else if k == p { x } else { sd[k - 1] };
            assert(r[i] == at(i));
            assert(r[j] == at(j));
        }
    }
}

impl App {
    /// Start a round of page connections for the current station and board.
    /// `prev` is the station and board of the previous round. When they
    /// changed, the board and the train selection are cleared; on a plain
    /// reconnect the old rows stay until fresh data lands. The status turns
    /// to connecting. The answer is the station and board of this round.
    pub fn begin_session(&mut self, prev: &Option<(String, ContentType)>) -> (r: (String, ContentType))
        ensures
            r.0@ == old(self).station_id@,
            r.1 == old(self).content_type,
            ({
                let changed = !(prev matches Some(p) && p.0@ == old(self).station_id@ && p.1
                    == old(self).content_type);
                &&& changed ==> final(self).items@.len() == 0 && final(self).selected_train_index is None
                    && final(self).selected_train_id is None
                &&& !changed ==> final(self).items == old(self).items
                    && final(self).selected_train_index == old(self).selected_train_index
                    && final(self).selected_train_id == old(self).selected_train_id
            }),
            *final(self) == (App {
                items: final(self).items,
                selected_train_index: final(self).selected_train_index,
                selected_train_id: final(self).selected_train_id,
                connection: ConnectionState::Connecting,
                last_update: None,
                ..*old(self)
            }),
    {
        let same = match prev {
            Some(p) => text_eq(p.0.as_str(), self.station_id.as_str()) && p.1 == self.content_type,
            None => false,
        };
        if !same {
            self.items = Vec::new();
            self.selected_train_index = None;
            self.selected_train_id = None;
        }
        self.connection = ConnectionState::Connecting;
        self.last_update = None;
        (self.station_id.clone(), self.content_type)
    }
}

impl View for Board {
    type V = Seq<TrainItem>;

    closed spec fn view(&self) -> Seq<TrainItem> {
        self.items@
    }
}

impl Board {
    /// The entries are in schedule order and no two share an id.
    #[verifier::type_invariant]
    spec fn inv(self) -> bool {
        unique_ids(self.items@) && sorted_by_key(self.items@)
    }

    /// No entries.
    pub fn new() -> (r: Board)
        ensures
            r@.len() == 0,
    {
        Board { items: Vec::new() }
    }

    /// The entries, in schedule order, each id once.
    pub fn items(&self) -> (r: &Vec<TrainItem>)
        ensures
            r@ == self@,
            unique_ids(r@),
            sorted_by_key(r@),
    {
        proof {
            use_type_invariant(self);
        }
        &self.items
    }

    /// Add the entries of `new` whose ids are not there yet, in order, and
    /// put the whole in schedule order (entries with equal times keep their
    /// order).
    pub fn merge(&mut self, new: Vec<TrainItem>)
        ensures
            final(self)@ == sort_by_key(add_unseen(old(self)@, new@)),
            unique_ids(final(self)@),
            sorted_by_key(final(self)@),
    {
        proof {
            use_type_invariant(&*self);
        }
        let ghost before = self.items@;
        let mut acc: Vec<TrainItem> = Vec::new();
        std::mem::swap(&mut acc, &mut self.items);
        merge_unseen(&mut acc, new);
        proof {
            lemma_add_unseen(before, new@);
            lemma_sort_unique(acc@);
            lemma_sort_sorted(acc@);
        }
        self.items = sort_by_key_exec(acc);
    }
}

impl Session {
    /// A round with nothing received yet.
    pub fn new() -> (r: Session)
        ensures
            r.collected@.len() == 0,
            r.update_count == 0,
            r.failed_count == 0,
            !r.connected_any,
    {
        Session { collected: Board::new(), update_count: 0, failed_count: 0, connected_any: false }
    }

    /// A page connected: the status turns to connected.
    pub fn on_connected(&mut self, app: &mut App)
        ensures
            final(self).connected_any,
            final(self).collected@ == old(self).collected@,
            final(self).update_count == old(self).update_count,
            final(self).failed_count == old(self).failed_count,
            *final(app) == (App { connection: ConnectionState::Connected, ..*old(app) }),
    {
        self.connected_any = true;
        app.connection = ConnectionState::Connected;
    }

    /// A page failed to connect. Once as many pages failed as there are and
    /// none connected, the status turns to failed.
    pub fn on_failed(&mut self, app: &mut App, max_pages: usize)
        requires
            old(self).failed_count < usize::MAX,
        ensures
            final(self).failed_count == old(self).failed_count + 1,
            final(self).collected@ == old(self).collected@,
            final(self).update_count == old(self).update_count,
            final(self).connected_any == old(self).connected_any,
            if final(self).failed_count >= max_pages && !old(self).connected_any {
                *final(app) == (App { connection: ConnectionState::Failed, ..*old(app) })
            } else {
                *final(app) == *old(app)
            },
    {
        self.failed_count = self.failed_count + 1;
        if self.failed_count >= max_pages && !self.connected_any {
            app.connection = ConnectionState::Failed;
        }
    }

    /// A page delivered an update at local time `now`. Its entries for the
    /// board shown are added to this round's entries (an id already there is
    /// skipped), which are kept in schedule order and become the board; the
    /// selected train is found again by its id; the notices are replaced when
    /// the update has some; the status turns to connected.
    pub fn on_update(&mut self, app: &mut App, data: TrainData, now: ClockTime)
        ensures
            final(self).collected@ == sort_by_key(add_unseen(old(self).collected@, fresh_items(data, old(app).content_type))),
            unique_ids(final(self).collected@),
            sorted_by_key(final(self).collected@),
            final(self).update_count == if old(self).update_count < u64::MAX {
                old(self).update_count + 1
            } else {
                old(self).update_count as int
            },
            final(self).failed_count == old(self).failed_count,
            final(self).connected_any == old(self).connected_any,
            final(app).items.deep_view() == items_view(final(self).collected@),
            unique_ids(final(app).items@),
            final(app).selected_train_index == match old(app).selected_train_id {
                Some(id) => match id_position(final(app).items.deep_view(), id@) {
                    Some(i) => Some(i as usize),
                    None => None,
                },
                None => old(app).selected_train_index,
            },
            match data.special_notices {
                Some(n) => final(app).special_notices == n,
                None => final(app).special_notices == old(app).special_notices,
            },
            *final(app) == (App {
                items: final(app).items,
                selected_train_index: final(app).selected_train_index,
                special_notices: final(app).special_notices,
                last_update: Some(now),
                connection: ConnectionState::Connected,
                ..*old(app)
            }),
    {
        if self.update_count < u64::MAX {
            self.update_count = self.update_count + 1;
        }
        let TrainData { departures, arrivals, special_notices } = data;
        let list = match app.content_type {
            ContentType::Departure => departures,
            ContentType::Arrival => arrivals,
        };
        let new_items: Vec<TrainItem> = match list {
            Some(v) => v,
            None => Vec::new(),
        };
        self.collected.merge(new_items);
        let board = self.collected.items();
        app.items = dup_items(board);
        proof {
            let b = board@;
            let v = app.items@;
            assert(app.items.deep_view() =~= items_view(b));
            assert forall|i: int, j: int| 0 <= i < j < v.len() implies (#[trigger] v[i]).id@ != (#[trigger] v[j]).id@ by {
                assert(v[i].deep_view() == app.items.deep_view()[i]);
                assert(v[j].deep_view() == app.items.deep_view()[j]);
                assert(b[i].deep_view() == items_view(b)[i]);
                assert(b[j].deep_view() == items_view(b)[j]);
            }
        }
        match &app.selected_train_id {
            Some(id) => {
                let pos = position_of_id(&app.items, id);
                app.selected_train_index = pos;
            },
            None => {},
        }
        match special_notices {
            Some(n) => {
                app.special_notices = n;
            },
            None => {},
        }
        app.last_update = Some(now);
        app.connection = ConnectionState::Connected;
    }
}

} // verus!
