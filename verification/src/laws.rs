//! Properties of the library that span its functions, proved.

use vstd::prelude::*;
use crate::app::{AppMode, relative_ok, relative_target, search_result, matching, first_n, App, MAX_LISTED};
use crate::config::{config_text_seq, first_line_lang, line_lang, lines_seq, strip_cr};
use crate::input::{digit_index, is_digit, key_step, Command, Key};
use crate::lang::{class_segment, code_of_text, code_seq, other, Lang, Tr};
use crate::detail::{remark_lines, LineView};
use crate::ui::{colored, delay_text_seq, row_of, BoardRow, Color};
use crate::app::ContentType;
use crate::live::{add_unseen, has_id, id_position, lemma_add_unseen, lemma_sort_unique, unique_ids};
use crate::model::{ItemView, TrainItem};
use crate::sort::{insert_by_key, lemma_sort_multiset, lemma_sort_sorted, sort_by_key, sorted_by_key, SortKey};
use crate::text::{
    all_ascii, ascii_lower_char, contains_seq, decimal_seq, digit_char, is_ws, lowercase, split_seq,
    starts_with_seq, trim_end_seq, trim_seq, trim_start_seq,
};
use crate::time::{clock_at, delay_seq, hh_mm_seq, offset_ok, rfc3339_instant, shows_time};
use crate::ui::row_number_seq;

verus! {

broadcast use {vstd::string::group_string_axioms, vstd::seq_lib::group_to_multiset_ensures};

// ---------------------------------------------------------------------------
// Languages
// ---------------------------------------------------------------------------

proof fn lemma_trim_plain(s: Seq<char>)
    requires
        s.len() > 0,
        !is_ws(s[0]),
        !is_ws(s.last()),
    ensures
        trim_seq(s) == s,
{
}

proof fn lemma_code_text(l: Lang)
    ensures
        trim_seq(code_seq(l)) == code_seq(l),
        all_ascii(code_seq(l)),
        code_seq(l).map_values(|c: char| ascii_lower_char(c)) == code_seq(l),
{
    reveal_strlit("de");
    reveal_strlit("en");
    let c = code_seq(l);
    lemma_trim_plain(c);
    assert(c.map_values(|c: char| ascii_lower_char(c)) =~= c);
}

/// A language's code reads back as that language.
pub proof fn law_code_roundtrip(l: Lang)
    ensures
        code_of_text(code_seq(l)) == Some(l),
{
    lemma_code_text(l);
    reveal_strlit("de");
    reveal_strlit("en");
    assert(("de"@) != ("en"@)) by {
        assert(("de"@)[0] != ("en"@)[0]);
    }
}

/// Switching the language twice gives it back; switching once changes it.
pub proof fn law_toggle_twice(l: Lang)
    ensures
        other(other(l)) == l,
        other(l) != l,
{
}

// ---------------------------------------------------------------------------
// The config file
// ---------------------------------------------------------------------------

proof fn lemma_split_without_sep(s: Seq<char>, sep: char)
    requires
        !s.contains(sep),
    ensures
        split_seq(s, sep) == seq![s],
    decreases s.len(),
{
    if s.len() > 0 {
        assert(!s.drop_last().contains(sep)) by {
            if s.drop_last().contains(sep) {
                let i = choose|i: int| 0 <= i < s.drop_last().len() && s.drop_last()[i] == sep;
                assert(s[i] == sep);
            }
        }
        lemma_split_without_sep(s.drop_last(), sep);
        assert(s.last() != sep) by {
            assert(s[s.len() - 1] == s.last());
        }
        assert(seq![s.drop_last()].last().push(s.last()) =~= s);
        assert(seq![s.drop_last()].update(0, s) =~= seq![s]);
    } else {
        assert(s =~= Seq::<char>::empty());
    }
}

/// Saving a language and reading the saved text back gives that language.
pub proof fn law_config_roundtrip(l: Lang)
    ensures
        first_line_lang(lines_seq(config_text_seq(l))) == Some(l),
{
    reveal_strlit("language = ");
    reveal_strlit("language");
    reveal_strlit("\n");
    reveal_strlit("de");
    reveal_strlit("en");
    let code = code_seq(l);
    let line = "language = "@ + code;
    let text = config_text_seq(l);
    assert(text =~= line + seq!['\n']);
    assert(!line.contains('\n')) by {
        if line.contains('\n') {
            let i = choose|i: int| 0 <= i < line.len() && line[i] == '\n';
        }
    }
    lemma_split_without_sep(line, '\n');
    assert(text.drop_last() =~= line);
    assert(split_seq(text, '\n') =~= seq![line, Seq::<char>::empty()]);
    assert(line.last() != '\r');
    assert(strip_cr(line) == line);
    assert(lines_seq(text) =~= seq![line]);
    // The line reads `language`, ` = `, then the code.
    lemma_trim_plain(line);
    assert(starts_with_seq(line, "language"@)) by {
        assert(line.take(8) =~= "language"@);
    }
    let after = line.skip(8);
    assert(after =~= seq![' ', '=', ' '] + code);
    assert(trim_start_seq(after) == trim_start_seq(after.drop_first()));
    assert(after.drop_first() =~= seq!['=', ' '] + code);
    assert(trim_start_seq(after.drop_first()) == after.drop_first());
    let v = after.drop_first();
    assert(v.skip(1) =~= seq![' '] + code);
    let w = v.skip(1);
    assert(trim_start_seq(w) == trim_start_seq(w.drop_first()));
    assert(w.drop_first() =~= code);
    lemma_code_text(l);
    assert(trim_start_seq(code) == code);
    assert(trim_end_seq(code) == code);
    assert(trim_seq(w) == code);
    law_code_roundtrip(l);
    assert(line_lang(line) == Some(l));
    assert(seq![line].drop_first() =~= Seq::<Seq<char>>::empty());
}

// ---------------------------------------------------------------------------
// The station picker
// ---------------------------------------------------------------------------

proof fn lemma_matching_match(s: Seq<(String, String)>, q: Seq<char>)
    ensures
        forall|i: int| 0 <= i < matching(s, q).len() ==> contains_seq(lowercase((#[trigger] matching(s, q)[i]).1@), q),
        forall|i: int| 0 <= i < matching(s, q).len() ==> s.contains(#[trigger] matching(s, q)[i]),
    decreases s.len(),
{
    if s.len() > 0 {
        lemma_matching_match(s.drop_last(), q);
        let r = matching(s.drop_last(), q);
        assert forall|i: int| 0 <= i < matching(s, q).len() implies s.contains(#[trigger] matching(s, q)[i]) by {
            if i < r.len() {
                assert(s.drop_last().contains(r[i]));
                let k = choose|k: int| 0 <= k < s.drop_last().len() && s.drop_last()[k] == r[i];
                assert(s[k] == r[i]);
            } else {
                assert(s[s.len() - 1] == s.last());
            }
        }
    }
}

/// Under a non-empty search, every station the picker lists has a name that
/// contains the search, ignoring case, and is a station of the table.
pub proof fn law_listed_match_search(search: Seq<char>, stations: Seq<(String, String)>, sorted: Seq<(String, String)>)
    requires
        search.len() > 0,
    ensures
        ({
            let list = search_result(search, stations, sorted).0;
            forall|i: int| 0 <= i < list.len() ==> {
                &&& contains_seq(lowercase((#[trigger] list[i]).1@), lowercase(search))
                &&& stations.contains(list[i])
            }
        }),
{
    let q = lowercase(search);
    let m = matching(stations, q);
    let sm = sort_by_key(m);
    let list = search_result(search, stations, sorted).0;
    lemma_matching_match(stations, q);
    lemma_sort_multiset(m);
    assert forall|i: int| 0 <= i < list.len() implies {
        &&& contains_seq(lowercase((#[trigger] list[i]).1@), q)
        &&& stations.contains(list[i])
    } by {
        assert(list[i] == sm[i]);
        assert(sm.contains(sm[i]));
        assert(sm.to_multiset().count(sm[i]) > 0);
        assert(m.contains(sm[i]));
        let k = choose|k: int| 0 <= k < m.len() && m[k] == sm[i];
        assert(contains_seq(lowercase(m[k].1@), q));
        assert(stations.contains(m[k]));
    }
}

/// The picker lists at most 20 stations, no more than match, in name order
/// when searching; with an empty search the count is that of all stations.
pub proof fn law_listing_bounds(search: Seq<char>, stations: Seq<(String, String)>, sorted: Seq<(String, String)>)
    ensures
        ({
            let (list, total) = search_result(search, stations, sorted);
            &&& list.len() <= MAX_LISTED
            &&& list.len() <= total
            &&& list.len() == if total < MAX_LISTED { total } else { MAX_LISTED as nat }
            &&& search.len() == 0 ==> total == sorted.len() && list == first_n(sorted, MAX_LISTED as nat)
            &&& search.len() > 0 ==> sorted_by_key(list)
        }),
{
    if search.len() > 0 {
        let m = sort_by_key(matching(stations, lowercase(search)));
        lemma_sort_sorted(matching(stations, lowercase(search)));
        let list = first_n(m, MAX_LISTED as nat);
        assert forall|i: int, j: int| 0 <= i <= j < list.len() implies crate::text::lex_le(
            #[trigger] list[i].sort_key(),
            #[trigger] list[j].sort_key(),
        ) by {
            assert(list[i] == m[i] && list[j] == m[j]);
        }
    }
}

/// The table sorted by name is in name order and holds the same stations.
pub proof fn law_sort_orders_and_keeps<T: SortKey>(s: Seq<T>)
    ensures
        sorted_by_key(sort_by_key(s)),
        sort_by_key(s).to_multiset() == s.to_multiset(),
        sort_by_key(s).len() == s.len(),
{
    lemma_sort_sorted(s);
    lemma_sort_multiset(s);
    assert(sort_by_key(s).to_multiset().len() == s.to_multiset().len());
}

// ---------------------------------------------------------------------------
// The train selection
// ---------------------------------------------------------------------------

/// Moving the train selection on a non-empty board leaves it on a train of
/// the board, with the tracked id that train's id.
pub proof fn law_selection_stays_on_board(a: App, b: App, delta: i32)
    requires
        relative_ok(a, delta),
        App::relative_step(a, b, delta),
        a.items@.len() > 0,
    ensures
        b.selected_train_index matches Some(i) && i < b.items@.len() && b.selected_train_id == Some(b.items@[i as int].id),
{
    let t = relative_target(a, delta);
    assert(0 <= t < a.items@.len());
}

/// No key press changes the board's trains or the live connection state:
/// only updates from the feed do.
pub proof fn law_keys_keep_board(a: App, b: App, key: Key, cmd: Command)
    requires
        key_step(a, b, key, cmd),
    ensures
        b.items == a.items,
        b.special_notices == a.special_notices,
        b.connection == a.connection,
        b.last_update == a.last_update,
{
}

/// Opening the station picker and closing it again without choosing leaves
/// the station, the board and the train selection as they were.
pub proof fn law_picker_cancel_keeps_station(a: App, b: App, c: App)
    requires
        App::enter_step(a, b),
        c == (App { mode: AppMode::Normal, ..b }),
    ensures
        c.station_id == a.station_id,
        c.station_name == a.station_name,
        c.content_type == a.content_type,
        c.items == a.items,
        c.selected_train_index == a.selected_train_index,
        c.mode == AppMode::Normal,
{
}

// ---------------------------------------------------------------------------
// Board updates
// ---------------------------------------------------------------------------

/// A board update leaves the round's entries in schedule order with each id
/// once (when they were so before), keeps every entry the round had, and
/// holds every train the update brought.
pub proof fn law_update_keeps_board(acc: Seq<TrainItem>, new: Seq<TrainItem>)
    requires
        unique_ids(acc),
    ensures
        ({
            let b = sort_by_key(add_unseen(acc, new));
            &&& sorted_by_key(b)
            &&& unique_ids(b)
            &&& forall|i: int| 0 <= i < acc.len() ==> b.contains(#[trigger] acc[i])
            &&& forall|j: int| 0 <= j < new.len() ==> has_id(b, (#[trigger] new[j]).id@)
        }),
{
    let m = add_unseen(acc, new);
    let b = sort_by_key(m);
    lemma_add_unseen(acc, new);
    lemma_sort_sorted(m);
    lemma_sort_unique(m);
    lemma_sort_multiset(m);
    assert forall|i: int| 0 <= i < acc.len() implies b.contains(#[trigger] acc[i]) by {
        assert(m[i] == acc[i]);
        assert(m.contains(acc[i]));
        assert(m.to_multiset().count(acc[i]) > 0);
    }
    assert forall|j: int| 0 <= j < new.len() implies has_id(b, (#[trigger] new[j]).id@) by {
        let k = choose|k: int| 0 <= k < m.len() && (#[trigger] m[k]).id@ == new[j].id@;
        assert(m.contains(m[k]));
        assert(m.to_multiset().count(m[k]) > 0);
        assert(b.contains(m[k]));
        let q = choose|q: int| 0 <= q < b.len() && b[q] == m[k];
        assert(b[q].id@ == new[j].id@);
    }
}

/// The position the selection is found at after an update holds the train
/// with the tracked id, and no earlier entry has it; none is found only when
/// no entry has it.
pub proof fn law_selection_follows_id(s: Seq<ItemView>, id: Seq<char>)
    ensures
        id_position(s, id) matches Some(i) ==> 0 <= i < s.len() && s[i].id == id && forall|j: int| 0 <= j < i ==> s[j].id != id,
        id_position(s, id) is None ==> forall|j: int| 0 <= j < s.len() ==> s[j].id != id,
{
    if exists|i: int| 0 <= i < s.len() && (#[trigger] s[i]).id == id {
        let w = choose|i: int| 0 <= i < s.len() && (#[trigger] s[i]).id == id;
        lemma_first_exists(s, id, w);
    }
}

proof fn lemma_first_exists(s: Seq<ItemView>, id: Seq<char>, w: int)
    requires
        0 <= w < s.len(),
        s[w].id == id,
    ensures
        exists|i: int| 0 <= i < s.len() && (#[trigger] s[i]).id == id && forall|j: int| 0 <= j < i ==> (#[trigger] s[j]).id != id,
    decreases w,
{
    if exists|j: int| 0 <= j < w && (#[trigger] s[j]).id == id {
        let j = choose|j: int| 0 <= j < w && (#[trigger] s[j]).id == id;
        lemma_first_exists(s, id, j);
    } else {
        assert(forall|j: int| 0 <= j < w ==> (#[trigger] s[j]).id != id);
    }
}

// ---------------------------------------------------------------------------
// Times and keys
// ---------------------------------------------------------------------------

/// No delay the board reports is zero minutes.
pub proof fn law_delay_never_zero(scheduled: Seq<char>, expected: Option<Seq<char>>)
    ensures
        delay_seq(scheduled, expected) != Some(0i64),
{
}

/// A shown time is `-`, or five characters with `:` in the middle.
pub proof fn law_time_shape(iso: Seq<char>, out: Seq<char>)
    requires
        shows_time(iso, out),
    ensures
        out == "-"@ || (out.len() == 5 && out[2] == ':'),
{
}

/// The digit shown beside each of the first ten rows is the key that opens
/// that row's train.
pub proof fn law_row_digit_opens_row(idx: nat)
    requires
        idx < 10,
    ensures
        row_number_seq(idx).len() == 1,
        is_digit(row_number_seq(idx)[0]),
        digit_index(row_number_seq(idx)[0]) == idx,
{
    reveal_strlit("0");
    if idx <= 8 {
        assert(decimal_seq(idx + 1) == seq![digit_char(idx + 1)]);
    }
}

// ---------------------------------------------------------------------------
// What the picker finds, the detail remarks, class labels, delay text
// ---------------------------------------------------------------------------

/// A station's lower-cased name contains the query.
pub open spec fn name_hit(e: (String, String), query: Seq<char>) -> bool {
    contains_seq(lowercase(e.1@), query)
}

/// The stations whose lower-cased name contains the query.
pub open spec fn hit_by(query: Seq<char>) -> spec_fn((String, String)) -> bool {
    |e: (String, String)| name_hit(e, query)
}

proof fn lemma_matching_is_filter(s: Seq<(String, String)>, q: Seq<char>)
    ensures
        matching(s, q) == s.filter(hit_by(q)),
    decreases s.len(),
{
    reveal(Seq::filter);
    if s.len() > 0 {
        lemma_matching_is_filter(s.drop_last(), q);
    }
}

/// Under a non-empty search, the picker counts every station of the table
/// whose lower-cased name contains the lower-cased search, and no other
/// (wherever in the name the search stands), and lists the first twenty of
/// them in name order.
pub proof fn law_search_counts_every_match(search: Seq<char>, stations: Seq<(String, String)>, sorted: Seq<(String, String)>)
    requires
        search.len() > 0,
    ensures
        ({
            let q = lowercase(search);
            let hits = stations.filter(hit_by(q));
            let (list, total) = search_result(search, stations, sorted);
            &&& total == hits.len()
            &&& list == first_n(sort_by_key(hits), MAX_LISTED as nat)
            &&& forall|i: int| 0 <= i < stations.len() && name_hit(#[trigger] stations[i], q) ==> hits.contains(stations[i])
        }),
{
    let q = lowercase(search);
    lemma_matching_is_filter(stations, q);
    law_sort_orders_and_keeps(matching(stations, q));
    assert forall|i: int| 0 <= i < stations.len() && name_hit(#[trigger] stations[i], q) implies stations.filter(hit_by(q)).contains(stations[i]) by {
        stations.lemma_filter_contains(hit_by(q), i);
    }
}

/// A remark as its lines in the detail view: each piece between line breaks,
/// in red.
pub open spec fn remark_as_lines(r: Seq<char>) -> Seq<LineView> {
    split_seq(r, '\n').map_values(|p: Seq<char>| seq![(p, colored(Color::Red))])
}

proof fn lemma_remarks_flatten(rs: Seq<Seq<char>>)
    ensures
        crate::detail::remarks_body(rs) == rs.map_values(|r: Seq<char>| remark_as_lines(r)).flatten_alt(),
    decreases rs.len(),
{
    if rs.len() > 0 {
        lemma_remarks_flatten(rs.drop_last());
        let m = rs.map_values(|r: Seq<char>| remark_as_lines(r));
        assert(m.drop_last() =~= rs.drop_last().map_values(|r: Seq<char>| remark_as_lines(r)));
        assert(m.last() == remark_as_lines(rs.last()));
        assert(crate::detail::red_lines(split_seq(rs.last(), '\n')) =~= remark_as_lines(rs.last()));
    }
}

/// The detail view lists every remark of a train that has any: a heading, then
/// each remark in order, split at its line breaks into red lines, so it has one
/// line more than all remarks have pieces together.
pub proof fn law_detail_lists_every_remark(tr: Tr, v: ItemView)
    requires
        v.remarks matches Some(rs) && rs.len() > 0,
    ensures
        ({
            let rs = v.remarks.unwrap();
            let body = rs.map_values(|r: Seq<char>| remark_as_lines(r)).flatten();
            &&& remark_lines(tr, v) == seq![seq![(tr.remarks@ + ":"@, colored(Color::Yellow))]] + body
            &&& remark_lines(tr, v).len() == 1 + body.len()
        }),
{
    let rs = v.remarks.unwrap();
    let m = rs.map_values(|r: Seq<char>| remark_as_lines(r));
    lemma_remarks_flatten(rs);
    m.lemma_flatten_and_flatten_alt_are_equivalent();
}

/// Class symbol segments `1` and `2` name the first and the second class: the
/// label of each begins with its digit, in either language, so the two never
/// share a label.
pub proof fn law_class_digit_names_class(l: Lang)
    ensures
        class_segment(l, "1"@) matches Some(a) && a.len() > 0 && a[0] == '1',
        class_segment(l, "2"@) matches Some(b) && b.len() > 0 && b[0] == '2',
        class_segment(l, "1"@) != class_segment(l, "2"@),
{
    reveal_strlit("1");
    reveal_strlit("2");
    reveal_strlit("B");
    reveal_strlit("C");
    reveal_strlit("1. Klasse");
    reveal_strlit("1st class");
    reveal_strlit("2. Klasse");
    reveal_strlit("2nd class");
    assert("1"@ != "2"@) by {
        assert(("1"@)[0] != ("2"@)[0]);
    }
}

/// The delay text carries the delay's sign and size: `+` and the minutes for a
/// late train, `-` and the minutes for an early one, `0` on time; so a late and
/// an early train never show the same text.
pub proof fn law_delay_text_signed(d: i64)
    ensures
        d > 0 ==> delay_text_seq(d) == seq!['+'] + decimal_seq(d as nat),
        d < 0 ==> delay_text_seq(d) == seq!['-'] + decimal_seq((-d) as nat),
        d == 0 ==> delay_text_seq(d) == seq!['0'],
        (delay_text_seq(d)[0] == '-') == (d < 0),
        (delay_text_seq(d)[0] == '+') == (d > 0),
{
    reveal_strlit("+");
    if d > 0 {
        assert(delay_text_seq(d) =~= seq!['+'] + decimal_seq(d as nat));
        lemma_decimal_first_digit(d as nat);
    } else if d == 0 {
        assert(decimal_seq(0) =~= seq!['0']);
    } else {
        assert(delay_text_seq(d) =~= seq!['-'] + decimal_seq((-d) as nat));
        lemma_decimal_first_digit((-d) as nat);
    }
}

proof fn lemma_decimal_first_digit(n: nat)
    ensures
        decimal_seq(n).len() > 0,
        '0' <= decimal_seq(n)[0] <= '9',
    decreases n,
{
    if n >= 10 {
        lemma_decimal_first_digit(n / 10);
    }
}

proof fn lemma_hh_mm_distinct(h1: nat, m1: nat, h2: nat, m2: nat)
    requires
        h1 < 100,
        m1 < 100,
        h2 < 100,
        m2 < 100,
        (h1, m1) != (h2, m2),
    ensures
        hh_mm_seq(h1, m1) != hh_mm_seq(h2, m2),
{
    let a = hh_mm_seq(h1, m1);
    let b = hh_mm_seq(h2, m2);
    if a == b {
        assert(a[0] == b[0] && a[1] == b[1] && a[3] == b[3] && a[4] == b[4]);
        assert(h1 / 10 == h2 / 10 && h1 % 10 == h2 % 10);
        assert(m1 / 10 == m2 / 10 && m1 % 10 == m2 % 10);
        assert(h1 == h2);
        assert(m1 == m2);
    }
}

proof fn lemma_clock_bounds(t: (i64, u32), o: int)
    ensures
        clock_at(t, o).0 < 24,
        clock_at(t, o).1 < 60,
{
    let s = (t.0 + o) % 86400;
    assert(0 <= s < 86400);
    assert(s / 3600 < 24);
}

/// On the board, a delayed train's actual column is its expected time read on
/// the local clock, as its scheduled column is its scheduled time; read on one
/// clock, the two columns differ whenever the two instants fall in different
/// minutes of it.
pub proof fn law_actual_column_shows_expected(item: TrainItem, idx: nat, c: ContentType, sel: bool, r: BoardRow)
    requires
        row_of(item, idx, c, sel, r),
        delay_seq(item.deep_view().scheduled, item.deep_view().expected) is Some,
    ensures
        ({
            let v = item.deep_view();
            let s = rfc3339_instant(v.scheduled).unwrap();
            let x = rfc3339_instant(v.expected.unwrap()).unwrap();
            &&& r.scheduled_offset matches Some(o) && offset_ok(o as int)
                && r.scheduled@ == hh_mm_seq(clock_at(s, o as int).0, clock_at(s, o as int).1)
            &&& r.actual_offset matches Some(o) && offset_ok(o as int)
                && r.actual@ == hh_mm_seq(clock_at(x, o as int).0, clock_at(x, o as int).1)
            &&& r.scheduled_offset == r.actual_offset && clock_at(s, r.actual_offset.unwrap() as int) != clock_at(
                x,
                r.actual_offset.unwrap() as int,
            ) ==> r.actual@ != r.scheduled@
        }),
{
    let v = item.deep_view();
    let s = rfc3339_instant(v.scheduled).unwrap();
    let x = rfc3339_instant(v.expected.unwrap()).unwrap();
    let o = r.actual_offset.unwrap() as int;
    lemma_clock_bounds(s, o);
    lemma_clock_bounds(x, o);
    if r.scheduled_offset == r.actual_offset && clock_at(s, o) != clock_at(x, o) {
        lemma_hh_mm_distinct(clock_at(s, o).0, clock_at(s, o).1, clock_at(x, o).0, clock_at(x, o).1);
    }
}

} // verus!
