//! The train detail view: timing, platform, operator, remarks, stops and the
//! physical formation with amenities, as lines of styled text.

use vstd::prelude::*;
use crate::app::{App, ContentType};
use crate::lang::{class_label_seq, first_car_type, icon_seq, Lang, Tr};
use crate::model::{Formation, ItemView, TrainItem, WagonView};
use crate::text::{
    copy_str, decimal_seq, join, join_seq, push_decimal, remove_all, remove_all_seq, signed_decimal,
    signed_decimal_seq, split, split_seq, text_eq, trim, trim_seq,
};
use crate::time::{calculate_delay, delay_seq, format_time, shows_time};
use crate::ui::{colored, colored_style, delay_color, delay_color_of, or_text, first_some, plain, plain_style, strong, strong_style, Color, Span, Style};

verus! {

broadcast use vstd::string::group_string_axioms;

/// A line of styled text, as pieces of text with their styles.
pub type LineView = Seq<(Seq<char>, Style)>;

/// A delay with its unit: `+` before a positive one.
pub open spec fn delay_min_seq(d: i64, min: Seq<char>) -> Seq<char> {
    if d > 0 {
        "+"@ + decimal_seq(d as nat) + " "@ + min
    } else {
        signed_decimal_seq(d as int) + " "@ + min
    }
}

/// The delay line, when the train is late or early.
pub open spec fn delay_lines(tr: Tr, v: ItemView) -> Seq<LineView> {
    match delay_seq(v.scheduled, v.expected) {
        Some(d) => seq![seq![(tr.delay@ + ": "@, colored(Color::Yellow)), (delay_min_seq(d, tr.min@), colored(delay_color_of(d)))]],
        None => Seq::<LineView>::empty(),
    }
}

/// The platform line, when the track is known.
pub open spec fn track_lines(tr: Tr, v: ItemView) -> Seq<LineView> {
    match v.track {
        Some(t) => seq![
            seq![
                (tr.track@ + ": "@, colored(Color::Yellow)),
                (t, colored(Color::Magenta)),
                (" "@, plain()),
                (
                    match v.sector {
                        Some(s) => tr.sector@ + " "@ + s,
                        None => Seq::<char>::empty(),
                    },
                    colored(Color::Magenta),
                ),
            ],
        ],
        None => Seq::<LineView>::empty(),
    }
}

/// The operator line, when the operator is known.
pub open spec fn operator_lines(tr: Tr, v: ItemView) -> Seq<LineView> {
    match v.operator {
        Some(o) => seq![seq![(tr.operator@ + ": "@, colored(Color::Yellow)), (o, plain())]],
        None => Seq::<LineView>::empty(),
    }
}

/// One red line per piece of a remark.
pub open spec fn red_lines(pieces: Seq<Seq<char>>) -> Seq<LineView> {
    pieces.map_values(|p: Seq<char>| seq![(p, colored(Color::Red))])
}

/// The remarks, each split at its line breaks into lines of its own.
pub open spec fn remarks_body(rs: Seq<Seq<char>>) -> Seq<LineView>
    decreases rs.len(),
{
    if rs.len() == 0 {
        Seq::<LineView>::empty()
    } else {
        remarks_body(rs.drop_last()) + red_lines(split_seq(rs.last(), '\n'))
    }
}

/// The remarks heading and lines, when there are remarks.
pub open spec fn remark_lines(tr: Tr, v: ItemView) -> Seq<LineView> {
    match v.remarks {
        Some(rs) => if rs.len() > 0 {
            seq![seq![(tr.remarks@ + ":"@, colored(Color::Yellow))]] + remarks_body(rs)
        } else {
            Seq::<LineView>::empty()
        },
        None => Seq::<LineView>::empty(),
    }
}

/// An empty line.
pub open spec fn blank_line() -> LineView {
    seq![(Seq::<char>::empty(), plain())]
}

/// The major stops, when there are any.
pub open spec fn major_stop_lines(tr: Tr, v: ItemView) -> Seq<LineView> {
    match v.prioritized_vias {
        Some(p) => if p.len() > 0 {
            seq![seq![(tr.major_stops@ + ": "@ + join_seq(p, " ~ "@), strong(Color::Yellow))]]
        } else {
            Seq::<LineView>::empty()
        },
        None => Seq::<LineView>::empty(),
    }
}

/// A stop name with zero-width-space entities removed and whitespace trimmed.
pub open spec fn clean_stop(s: Seq<char>) -> Seq<char> {
    trim_seq(remove_all_seq(s, "&#8203;"@))
}

/// The cleaned stop names that are not empty.
pub open spec fn clean_stops(parts: Seq<Seq<char>>) -> Seq<Seq<char>>
    decreases parts.len(),
{
    if parts.len() == 0 {
        Seq::<Seq<char>>::empty()
    } else {
        let r = clean_stops(parts.drop_last());
        let c = clean_stop(parts.last());
        if c.len() > 0 {
            r.push(c)
        } else {
            r
        }
    }
}

/// All stops, from the `~`-separated via text, when any remain.
pub open spec fn stop_lines(tr: Tr, v: ItemView) -> Seq<LineView> {
    match v.via {
        Some(via) => {
            let stops = clean_stops(split_seq(via, '~'));
            if stops.len() > 0 {
                seq![
                    seq![(tr.all_stops@ + ":"@, strong(Color::Cyan))],
                    seq![("  "@ + join_seq(stops, " → "@), plain())],
                ]
            } else {
                Seq::<LineView>::empty()
            }
        },
        None => Seq::<LineView>::empty(),
    }
}

/// A wagon is the locomotive: an `engine` car type, or no wagon number.
pub open spec fn is_loco(w: WagonView) -> bool {
    (w.car_type matches Some(t) && t.contains("engine"@)) || w.wagon_number is None
}

/// The label of a wagon's car type, if it has one.
pub open spec fn wagon_type_label(l: Lang, w: WagonView) -> Option<Seq<char>> {
    match w.car_type {
        Some(t) => first_car_type(l, t),
        None => None,
    }
}

/// The passenger classes of a wagon, if its symbol names any.
pub open spec fn wagon_class_label(l: Lang, w: WagonView) -> Option<Seq<char>> {
    match w.symbol {
        Some(s) => class_label_seq(l, s),
        None => None,
    }
}

/// A piece when the option is set.
pub open spec fn opt_piece(o: Option<Seq<char>>, prefix: Seq<char>, style: Style) -> LineView {
    match o {
        Some(x) => seq![(prefix + x, style)],
        None => Seq::<(Seq<char>, Style)>::empty(),
    }
}

/// The start of a wagon's line: the locomotive, or the coach and its number.
pub open spec fn wagon_head_seq(tr: Tr, w: WagonView) -> LineView {
    if is_loco(w) {
        seq![("  🚂 "@ + tr.locomotive@, strong(Color::Red))]
    } else {
        seq![("  "@ + tr.coach@ + " "@, plain()), (or_text(w.wagon_number, "?"@), colored(Color::Yellow))]
    }
}

/// A coach's car type and passenger classes, where known.
pub open spec fn wagon_labels_seq(l: Lang, w: WagonView) -> LineView {
    opt_piece(wagon_type_label(l, w), " "@, colored(Color::Blue)) + opt_piece(
        wagon_class_label(l, w),
        " · "@,
        colored(Color::Green),
    )
}

/// A wagon's closed mark, sector and destination, where given.
pub open spec fn wagon_marks_seq(tr: Tr, w: WagonView) -> LineView {
    (if w.closed == Some(true) {
        seq![(" "@ + tr.closed@, colored(Color::DarkGray))]
    } else {
        Seq::<(Seq<char>, Style)>::empty()
    }) + (match w.sector {
        Some(s) => seq![(" ["@ + tr.sector@ + " "@ + s + "]"@, colored(Color::Magenta))],
        None => Seq::<(Seq<char>, Style)>::empty(),
    }) + (match w.destination {
        Some(d) => if d.len() > 0 {
            seq![(" → "@ + d, colored(Color::Cyan))]
        } else {
            Seq::<(Seq<char>, Style)>::empty()
        },
        None => Seq::<(Seq<char>, Style)>::empty(),
    })
}

/// A wagon's amenities, where given.
pub open spec fn wagon_icons_seq(l: Lang, w: WagonView) -> LineView {
    match w.icons {
        Some(ic) => seq![(join_seq(ic.map_values(|i: Seq<char>| icon_seq(l, i)), " | "@), colored(Color::Green))],
        None => Seq::<(Seq<char>, Style)>::empty(),
    }
}

/// The line of one wagon: locomotive or coach number, car type and classes
/// (coaches only), closed mark, sector, destination, amenities.
pub open spec fn wagon_line_seq(tr: Tr, l: Lang, w: WagonView) -> LineView {
    let loco = is_loco(w);
    wagon_head_seq(tr, w) + (if loco {
        Seq::<(Seq<char>, Style)>::empty()
    } else {
        wagon_labels_seq(l, w)
    }) + wagon_marks_seq(tr, w) + (if loco {
        Seq::<(Seq<char>, Style)>::empty()
    } else {
        seq![(": "@, plain())]
    }) + wagon_icons_seq(l, w)
}

/// The formation heading and one line per wagon, when the formation is known.
pub open spec fn formation_lines(tr: Tr, l: Lang, v: ItemView) -> Seq<LineView> {
    match v.formation {
        Some(f) => if f.len() > 0 {
            seq![seq![(tr.formation@ + ":"@, strong(Color::Cyan))]] + f.map_values(|w: WagonView| wagon_line_seq(tr, l, w))
        } else {
            Seq::<LineView>::empty()
        },
        None => Seq::<LineView>::empty(),
    }
}

/// All lines of the detail view, `sched` being the shown scheduled time.
pub open spec fn detail_seq(tr: Tr, l: Lang, c: ContentType, v: ItemView, sched: Seq<char>) -> Seq<LineView> {
    seq![
        seq![
            (
                (if c == ContentType::Departure {
                    tr.departure@
                } else {
                    tr.arrival@
                }) + ": "@,
                colored(Color::Yellow),
            ),
            (sched, plain()),
        ],
    ] + delay_lines(tr, v) + track_lines(tr, v) + operator_lines(tr, v) + remark_lines(tr, v) + seq![blank_line()]
        + major_stop_lines(tr, v) + stop_lines(tr, v) + seq![blank_line()] + formation_lines(tr, l, v)
}

/// The detail view's title: train, line and destination.
pub open spec fn detail_title_seq(tr: Tr, v: ItemView) -> Seq<char> {
    "🚂 "@ + tr.train@ + " "@ + v.train + " - "@ + or_text(first_some(v.line, v.product), "?"@) + " → "@
        + or_text(first_some(v.destination, v.origin), "N/A"@)
}

/// `first` followed by `rest`.
fn concat(first: &str, rest: &str) -> (r: String)
    ensures
        r@ == first@ + rest@,
{
    let mut r = copy_str(first);
    r.append(rest);
    r
}

/// Append the lines of `more` to `lines`.
fn append_lines(lines: &mut Vec<Vec<Span>>, more: Vec<Vec<Span>>)
    ensures
        final(lines).deep_view() == old(lines).deep_view() + more.deep_view(),
{
    let ghost a = lines.deep_view();
    let ghost b = more.deep_view();
    let mut m = more;
    lines.append(&mut m);
    assert(lines.deep_view() =~= a + b);
}

/// No lines.
fn no_lines() -> (r: Vec<Vec<Span>>)
    ensures
        r.deep_view() == Seq::<LineView>::empty(),
{
    let r: Vec<Vec<Span>> = Vec::new();
    assert(r.deep_view() =~= Seq::<LineView>::empty());
    r
}

/// A single line.
fn single(line: Vec<Span>) -> (r: Vec<Vec<Span>>)
    ensures
        r.deep_view() == seq![line.deep_view()],
{
    let mut r: Vec<Vec<Span>> = Vec::new();
    r.push(line);
    assert(r.deep_view() =~= seq![line.deep_view()]);
    r
}

/// Append a span to a line.
fn push_span(line: &mut Vec<Span>, text: String, style: Style)
    ensures
        final(line).deep_view() == old(line).deep_view().push((text@, style)),
{
    let ghost a = line.deep_view();
    line.push(Span { text, style });
    assert(line.deep_view() =~= a.push((text@, style)));
}

/// A delay with its unit.
fn delay_min_text(d: i64, min: &str) -> (r: String)
    ensures
        r@ == delay_min_seq(d, min@),
{
    let mut r = if d > 0 {
        let mut t = copy_str("+");
        push_decimal(&mut t, d as u64);
        t
    } else {
        signed_decimal(d)
    };
    r.append(" ");
    r.append(min);
    r
}

fn delay_block(tr: &Tr, item: &TrainItem) -> (r: Vec<Vec<Span>>)
    ensures
        r.deep_view() == delay_lines(*tr, item.deep_view()),
{
    match calculate_delay(item) {
        Some(d) => {
            let mut line: Vec<Span> = Vec::new();
            push_span(&mut line, concat(tr.delay, ": "), colored_style(Color::Yellow));
            push_span(&mut line, delay_min_text(d, tr.min), colored_style(delay_color(d)));
            assert(line.deep_view() =~= seq![(tr.delay@ + ": "@, colored(Color::Yellow)), (delay_min_seq(d, tr.min@), colored(delay_color_of(d)))]);
            single(line)
        },
        None => no_lines(),
    }
}

fn track_block(tr: &Tr, item: &TrainItem) -> (r: Vec<Vec<Span>>)
    ensures
        r.deep_view() == track_lines(*tr, item.deep_view()),
{
    match &item.track {
        Some(t) => {
            let mut line: Vec<Span> = Vec::new();
            push_span(&mut line, concat(tr.track, ": "), colored_style(Color::Yellow));
            push_span(&mut line, t.clone(), colored_style(Color::Magenta));
            push_span(&mut line, copy_str(" "), plain_style());
            let sector = match &item.sector {
                Some(s) => {
                    let mut x = concat(tr.sector, " ");
                    x.append(s.as_str());
                    x
                },
                None => String::new(),
            };
            assert(sector@ == match item.deep_view().sector {
                Some(s) => tr.sector@ + " "@ + s,
                None => Seq::<char>::empty(),
            });
            push_span(&mut line, sector, colored_style(Color::Magenta));
            let ghost v = item.deep_view();
            assert(v.track == Some(t@));
            assert(line.deep_view() =~= seq![
                (tr.track@ + ": "@, colored(Color::Yellow)),
                (t@, colored(Color::Magenta)),
                (" "@, plain()),
                (sector@, colored(Color::Magenta)),
            ]);
            assert(seq![line.deep_view()] =~~= track_lines(*tr, v));
            single(line)
        },
        None => no_lines(),
    }
}

fn operator_block(tr: &Tr, item: &TrainItem) -> (r: Vec<Vec<Span>>)
    ensures
        r.deep_view() == operator_lines(*tr, item.deep_view()),
{
    match &item.operator {
        Some(o) => {
            let mut line: Vec<Span> = Vec::new();
            push_span(&mut line, concat(tr.operator, ": "), colored_style(Color::Yellow));
            push_span(&mut line, o.clone(), plain_style());
            assert(line.deep_view() =~= seq![(tr.operator@ + ": "@, colored(Color::Yellow)), (o@, plain())]);
            single(line)
        },
        None => no_lines(),
    }
}

fn remark_block(tr: &Tr, item: &TrainItem) -> (r: Vec<Vec<Span>>)
    ensures
        r.deep_view() == remark_lines(*tr, item.deep_view()),
{
    match &item.remarks {
        Some(rs) => {
            if rs.len() == 0 {
                return no_lines();
            }
            let ghost texts = item.deep_view().remarks.unwrap();
            assert(texts == rs.deep_view());
            let mut head: Vec<Span> = Vec::new();
            push_span(&mut head, concat(tr.remarks, ":"), colored_style(Color::Yellow));
            assert(head.deep_view() =~= seq![(tr.remarks@ + ":"@, colored(Color::Yellow))]);
            let mut lines = single(head);
            let ghost start = lines.deep_view();
            let mut k: usize = 0;
            assert(texts.take(0) =~= Seq::<Seq<char>>::empty());
            while k < rs.len()
                invariant
                    k <= rs.len(),
                    texts == rs.deep_view(),
                    lines.deep_view() == start + remarks_body(texts.take(k as int)),
                decreases rs.len() - k,
            {
                let pieces = split(rs[k].text.default.as_str(), '\n');
                let ghost ps = pieces.deep_view();
                let ghost mid = lines.deep_view();
                let mut j: usize = 0;
                assert(ps.take(0) =~= Seq::<Seq<char>>::empty());
                assert(red_lines(ps.take(0)) =~= Seq::<LineView>::empty());
                assert(mid + red_lines(ps.take(0)) =~= mid);
                while j < pieces.len()
                    invariant
                        j <= pieces.len(),
                        ps == pieces.deep_view(),
                        lines.deep_view() == mid + red_lines(ps.take(j as int)),
                    decreases pieces.len() - j,
                {
                    let mut line: Vec<Span> = Vec::new();
                    push_span(&mut line, pieces[j].clone(), colored_style(Color::Red));
                    assert(line.deep_view() =~= seq![(ps[j as int], colored(Color::Red))]);
                    let ghost before = lines.deep_view();
                    lines.push(line);
                    assert(lines.deep_view() =~= before.push(seq![(ps[j as int], colored(Color::Red))]));
                    assert(red_lines(ps.take(j + 1)) =~= red_lines(ps.take(j as int)).push(seq![(ps[j as int], colored(Color::Red))]));
                    j += 1;
                }
                assert(ps.take(j as int) =~= ps);
                assert(texts.take(k + 1).drop_last() =~= texts.take(k as int));
                assert(texts.take(k + 1).last() == rs@[k as int].text.default@);
                k += 1;
            }
            assert(texts.take(rs.len() as int) =~= texts);
            lines
        },
        None => no_lines(),
    }
}

fn major_block(tr: &Tr, item: &TrainItem) -> (r: Vec<Vec<Span>>)
    ensures
        r.deep_view() == major_stop_lines(*tr, item.deep_view()),
{
    match &item.prioritized_vias {
        Some(p) => {
            if p.len() == 0 {
                return no_lines();
            }
            let mut text = concat(tr.major_stops, ": ");
            let joined = join(p, " ~ ");
            text.append(joined.as_str());
            let mut line: Vec<Span> = Vec::new();
            push_span(&mut line, text, strong_style(Color::Yellow));
            assert(line.deep_view() =~= seq![(text@, strong(Color::Yellow))]);
            single(line)
        },
        None => no_lines(),
    }
}

/// The cleaned, non-empty stop names of the via text.
fn stops_of(via: &str) -> (r: Vec<String>)
    ensures
        r.deep_view() == clean_stops(split_seq(via@, '~')),
{
    let parts = split(via, '~');
    let ghost ps = parts.deep_view();
    let mut r: Vec<String> = Vec::new();
    let mut i: usize = 0;
    assert(ps.take(0) =~= Seq::<Seq<char>>::empty());
    while i < parts.len()
        invariant
            i <= parts.len(),
            ps == parts.deep_view(),
            r.deep_view() == clean_stops(ps.take(i as int)),
        decreases parts.len() - i,
    {
        proof {
            reveal_strlit("&#8203;");
        }
        let cleaned = remove_all(parts[i].as_str(), "&#8203;");
        let c = trim(cleaned.as_str());
        assert(ps.take(i + 1).drop_last() =~= ps.take(i as int));
        if !c.as_str().is_empty() {
            let ghost before = r.deep_view();
            r.push(c);
            assert(r.deep_view() =~= before.push(c@));
        }
        i += 1;
    }
    assert(ps.take(parts.len() as int) =~= ps);
    r
}

fn stop_block(tr: &Tr, item: &TrainItem) -> (r: Vec<Vec<Span>>)
    ensures
        r.deep_view() == stop_lines(*tr, item.deep_view()),
{
    match &item.via {
        Some(via) => {
            let stops = stops_of(via.default.as_str());
            if stops.len() == 0 {
                return no_lines();
            }
            let mut head: Vec<Span> = Vec::new();
            push_span(&mut head, concat(tr.all_stops, ":"), strong_style(Color::Cyan));
            assert(head.deep_view() =~= seq![(tr.all_stops@ + ":"@, strong(Color::Cyan))]);
            let mut body: Vec<Span> = Vec::new();
            let joined = join(&stops, " → ");
            push_span(&mut body, concat("  ", joined.as_str()), plain_style());
            assert(body.deep_view() =~= seq![("  "@ + joined@, plain())]);
            let mut r = single(head);
            let ghost h = r.deep_view();
            r.push(body);
            assert(r.deep_view() =~= h.push(body.deep_view()));
            r
        },
        None => no_lines(),
    }
}

/// Whether one of the car types is `engine`.
fn has_engine(types: &Vec<String>) -> (r: bool)
    ensures
        r == types.deep_view().contains("engine"@),
{
    let ghost t = types.deep_view();
    let mut i: usize = 0;
    while i < types.len()
        invariant
            i <= types.len(),
            t == types.deep_view(),
            forall|k: int| 0 <= k < i ==> t[k] != "engine"@,
        decreases types.len() - i,
    {
        if text_eq(types[i].as_str(), "engine") {
            assert(t[i as int] == "engine"@);
            return true;
        }
        i += 1;
    }
    false
}

/// Append the spans of `more` to `line`.
fn append_spans(line: &mut Vec<Span>, more: Vec<Span>)
    ensures
        final(line).deep_view() == old(line).deep_view() + more.deep_view(),
{
    let ghost a = line.deep_view();
    let ghost b = more.deep_view();
    let mut m = more;
    line.append(&mut m);
    assert(line.deep_view() =~= a + b);
}

/// No spans.
fn no_spans() -> (r: Vec<Span>)
    ensures
        r.deep_view() == Seq::<(Seq<char>, Style)>::empty(),
{
    let r: Vec<Span> = Vec::new();
    assert(r.deep_view() =~= Seq::<(Seq<char>, Style)>::empty());
    r
}

/// Whether the wagon is the locomotive.
fn wagon_is_loco(w: &Formation) -> (r: bool)
    ensures
        r == is_loco(w.deep_view()),
{
    let engine = match &w.car_type {
        Some(t) => has_engine(t),
        None => false,
    };
    engine || w.wagon_number.is_none()
}

fn wagon_head(tr: &Tr, w: &Formation) -> (r: Vec<Span>)
    ensures
        r.deep_view() == wagon_head_seq(*tr, w.deep_view()),
{
    let mut line: Vec<Span> = Vec::new();
    if wagon_is_loco(w) {
        push_span(&mut line, concat("  🚂 ", tr.locomotive), strong_style(Color::Red));
    } else {
        let mut c = concat("  ", tr.coach);
        c.append(" ");
        push_span(&mut line, c, plain_style());
        let n = match &w.wagon_number {
            Some(n) => n.clone(),
            None => copy_str("?"),
        };
        push_span(&mut line, n, colored_style(Color::Yellow));
    }
    assert(line.deep_view() =~= wagon_head_seq(*tr, w.deep_view()));
    line
}

fn wagon_labels(lang: Lang, w: &Formation) -> (r: Vec<Span>)
    ensures
        r.deep_view() == wagon_labels_seq(lang, w.deep_view()),
{
    let mut line = no_spans();
    match &w.car_type {
        Some(t) => {
            let label = lang.car_type_label(t.as_slice());
            assert(t@.map_values(|x: String| x@) =~= t.deep_view());
            match label {
                Some(l) => push_span(&mut line, concat(" ", l), colored_style(Color::Blue)),
                None => {},
            }
        },
        None => {},
    }
    let ghost a = line.deep_view();
    assert(a =~= opt_piece(wagon_type_label(lang, w.deep_view()), " "@, colored(Color::Blue)));
    match &w.symbol {
        Some(s) => {
            match lang.class_label(s.as_str()) {
                Some(c) => push_span(&mut line, concat(" · ", c.as_str()), colored_style(Color::Green)),
                None => {},
            }
        },
        None => {},
    }
    assert(line.deep_view() =~= a + opt_piece(wagon_class_label(lang, w.deep_view()), " · "@, colored(Color::Green)));
    line
}

fn wagon_marks(tr: &Tr, w: &Formation) -> (r: Vec<Span>)
    ensures
        r.deep_view() == wagon_marks_seq(*tr, w.deep_view()),
{
    let ghost wv = w.deep_view();
    let mut line = no_spans();
    if w.closed == Some(true) {
        push_span(&mut line, concat(" ", tr.closed), colored_style(Color::DarkGray));
    }
    let ghost a = line.deep_view();
    match &w.sector {
        Some(s) => {
            let mut t = concat(" [", tr.sector);
            t.append(" ");
            t.append(s.as_str());
            t.append("]");
            push_span(&mut line, t, colored_style(Color::Magenta));
        },
        None => {},
    }
    let ghost b = line.deep_view();
    match &w.destination {
        Some(d) => {
            if !d.as_str().is_empty() {
                push_span(&mut line, concat(" → ", d.as_str()), colored_style(Color::Cyan));
            }
        },
        None => {},
    }
    assert(line.deep_view() =~= wagon_marks_seq(*tr, wv));
    line
}

fn wagon_icons(lang: Lang, w: &Formation) -> (r: Vec<Span>)
    ensures
        r.deep_view() == wagon_icons_seq(lang, w.deep_view()),
{
    let mut line = no_spans();
    match &w.icons {
        Some(ic) => {
            let ghost iv = ic.deep_view();
            let mut labels: Vec<String> = Vec::new();
            let mut i: usize = 0;
            assert(iv.take(0).map_values(|x: Seq<char>| icon_seq(lang, x)) =~= labels.deep_view());
            while i < ic.len()
                invariant
                    i <= ic.len(),
                    iv == ic.deep_view(),
                    labels.deep_view() == iv.take(i as int).map_values(|x: Seq<char>| icon_seq(lang, x)),
                decreases ic.len() - i,
            {
                let ghost before = labels.deep_view();
                let label = lang.icon_label(ic[i].as_str());
                labels.push(label);
                assert(labels.deep_view() =~= before.push(label@));
                assert(iv.take(i + 1).map_values(|x: Seq<char>| icon_seq(lang, x)) =~= iv.take(i as int).map_values(|x: Seq<char>| icon_seq(lang, x)).push(icon_seq(lang, iv[i as int])));
                i += 1;
            }
            assert(iv.take(ic.len() as int) =~= iv);
            let joined = join(&labels, " | ");
            push_span(&mut line, joined, colored_style(Color::Green));
            assert(line.deep_view() =~= wagon_icons_seq(lang, w.deep_view()));
        },
        None => {},
    }
    line
}

/// The line of one wagon.
fn wagon_line(tr: &Tr, lang: Lang, w: &Formation) -> (r: Vec<Span>)
    ensures
        r.deep_view() == wagon_line_seq(*tr, lang, w.deep_view()),
{
    let loco = wagon_is_loco(w);
    let mut line = wagon_head(tr, w);
    if !loco {
        append_spans(&mut line, wagon_labels(lang, w));
    } else {
        append_spans(&mut line, no_spans());
    }
    append_spans(&mut line, wagon_marks(tr, w));
    if !loco {
        let mut colon = no_spans();
        push_span(&mut colon, copy_str(": "), plain_style());
        assert(colon.deep_view() =~= seq![(": "@, plain())]);
        append_spans(&mut line, colon);
    } else {
        append_spans(&mut line, no_spans());
    }
    append_spans(&mut line, wagon_icons(lang, w));
    line
}

fn formation_block(tr: &Tr, lang: Lang, item: &TrainItem) -> (r: Vec<Vec<Span>>)
    ensures
        r.deep_view() == formation_lines(*tr, lang, item.deep_view()),
{
    match &item.formation {
        Some(f) => {
            if f.len() == 0 {
                return no_lines();
            }
            let ghost fv = f.deep_view();
            let mut head: Vec<Span> = Vec::new();
            push_span(&mut head, concat(tr.formation, ":"), strong_style(Color::Cyan));
            assert(head.deep_view() =~= seq![(tr.formation@ + ":"@, strong(Color::Cyan))]);
            let mut lines = single(head);
            let ghost start = lines.deep_view();
            let mut i: usize = 0;
            while i < f.len()
                invariant
                    i <= f.len(),
                    fv == f.deep_view(),
                    lines.deep_view() == start + fv.take(i as int).map_values(|w: WagonView| wagon_line_seq(*tr, lang, w)),
                decreases f.len() - i,
            {
                let line = wagon_line(tr, lang, &f[i]);
                let ghost before = lines.deep_view();
                lines.push(line);
                assert(lines.deep_view() =~= before.push(line.deep_view()));
                assert(fv.take(i + 1).map_values(|w: WagonView| wagon_line_seq(*tr, lang, w)) =~= fv.take(i as int).map_values(|w: WagonView| wagon_line_seq(*tr, lang, w)).push(wagon_line_seq(*tr, lang, fv[i as int])));
                i += 1;
            }
            assert(fv.take(f.len() as int) =~= fv);
            lines
        },
        None => no_lines(),
    }
}

/// An empty line.
fn blank() -> (r: Vec<Vec<Span>>)
    ensures
        r.deep_view() == seq![blank_line()],
{
    let mut line: Vec<Span> = Vec::new();
    push_span(&mut line, String::new(), plain_style());
    assert(line.deep_view() =~= blank_line());
    single(line)
}

/// The detail view's title for a train.
pub fn detail_title(tr: &Tr, item: &TrainItem) -> (r: String)
    ensures
        r@ == detail_title_seq(*tr, item.deep_view()),
{
    let mut r = concat("🚂 ", tr.train);
    r.append(" ");
    r.append(item.train.as_str());
    r.append(" - ");
    match &item.line {
        Some(l) => r.append(l.as_str()),
        None => match &item.product {
            Some(p) => r.append(p.as_str()),
            None => r.append("?"),
        },
    }
    r.append(" → ");
    match &item.destination {
        Some(d) => r.append(d.default.as_str()),
        None => match &item.origin {
            Some(o) => r.append(o.default.as_str()),
            None => r.append("N/A"),
        },
    }
    r
}

/// The lines of the detail view for a train.
pub fn detail_lines(tr: &Tr, lang: Lang, content_type: ContentType, item: &TrainItem) -> (r: Vec<Vec<Span>>)
    ensures
        r.deep_view().len() >= 1 && r.deep_view()[0].len() == 2,
        shows_time(item.scheduled@, r.deep_view()[0][1].0),
        r.deep_view() == detail_seq(*tr, lang, content_type, item.deep_view(), r.deep_view()[0][1].0),
{
    let label = match content_type {
        ContentType::Departure => tr.departure,
        ContentType::Arrival => tr.arrival,
    };
    let sched = format_time(item.scheduled.as_str());
    let ghost st = sched@;
    let mut first: Vec<Span> = Vec::new();
    push_span(&mut first, concat(label, ": "), colored_style(Color::Yellow));
    push_span(&mut first, sched, plain_style());
    assert(first.deep_view() =~= seq![(label@ + ": "@, colored(Color::Yellow)), (st, plain())]);
    let mut lines = single(first);
    assert(lines.deep_view()[0][1].0 == st);
    append_lines(&mut lines, delay_block(tr, item));
    append_lines(&mut lines, track_block(tr, item));
    append_lines(&mut lines, operator_block(tr, item));
    append_lines(&mut lines, remark_block(tr, item));
    append_lines(&mut lines, blank());
    append_lines(&mut lines, major_block(tr, item));
    append_lines(&mut lines, stop_block(tr, item));
    append_lines(&mut lines, blank());
    append_lines(&mut lines, formation_block(tr, lang, item));
    assert(lines.deep_view()[0][1].0 == st);
    assert(lines.deep_view() =~= detail_seq(*tr, lang, content_type, item.deep_view(), st));
    lines
}

/// The detail view of the selected train: its title and lines, or `None`
/// when no train on the board is selected.
pub fn detail_view(app: &App) -> (r: Option<(String, Vec<Vec<Span>>)>)
    ensures
        match app.selected_train_index {
            Some(i) if i < app.items@.len() => r matches Some((title, lines)) && {
                let v = app.items@[i as int].deep_view();
                let t = app.lang.tr_spec();
                &&& title@ == detail_title_seq(t, v)
                &&& lines.deep_view().len() >= 1 && lines.deep_view()[0].len() == 2
                &&& shows_time(v.scheduled, lines.deep_view()[0][1].0)
                &&& lines.deep_view() == detail_seq(t, app.lang, app.content_type, v, lines.deep_view()[0][1].0)
            },
            _ => r is None,
        },
{
    match app.selected_train_index {
        Some(i) => {
            if i < app.items.len() {
                let tr = app.lang.tr();
                let item = &app.items[i];
                Some((detail_title(&tr, item), detail_lines(&tr, app.lang, app.content_type, item)))
            } else {
                None
            }
        },
        None => None,
    }
}

} // verus!
