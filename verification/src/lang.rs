//! UI language support: German (default) and English.
//!
//! Only the program's own chrome is translated; the live feed text is shown as
//! delivered. [`Lang`] selects one of two string tables ([`Tr`]) and gives
//! language-aware labels for wagon types, passenger classes and amenity icons.

use vstd::prelude::*;
use crate::text::{
    all_ascii, ascii_lower_char, chars_of, copy_str, join, join_seq, lowercase, split, split_seq, starts_with, starts_with_seq,
    text_eq, to_lowercase, trim, trim_seq,
};

verus! {

broadcast use vstd::string::group_string_axioms;

/// The selected UI language.
#[derive(Clone, Copy, PartialEq, Eq, Structural, Debug)]
pub enum Lang {
    De,
    En,
}

/// The view of an optional static text.
pub open spec fn opt_text(o: Option<&str>) -> Option<Seq<char>> {
    match o {
        Some(s) => Some(s@),
        None => None,
    }
}

/// The short code of a language, as stored in the config file.
pub open spec fn code_seq(l: Lang) -> Seq<char> {
    match l {
        Lang::De => "de"@,
        Lang::En => "en"@,
    }
}

/// The language a (normalised) code names.
pub open spec fn lang_of_code(c: Seq<char>) -> Option<Lang> {
    if c == "de"@ {
        Some(Lang::De)
    } else if c == "en"@ {
        Some(Lang::En)
    } else {
        None
    }
}

/// The other language.
pub open spec fn other(l: Lang) -> Lang {
    match l {
        Lang::De => Lang::En,
        Lang::En => Lang::De,
    }
}

/// The language a code text names, as `from_code` reads it: trimmed and
/// lower-cased (for ASCII text, `A`..`Z` to `a`..`z`; otherwise by the Unicode
/// tables, `lowercase`).
pub open spec fn code_of_text(s: Seq<char>) -> Option<Lang> {
    let t = trim_seq(s);
    lang_of_code(
        if all_ascii(t) {
            t.map_values(|c: char| ascii_lower_char(c))
        } else {
            lowercase(t)
        },
    )
}

/// The label of one wagon car type, or `None` for ordinary or unknown types.
pub open spec fn car_type_seq(l: Lang, t: Seq<char>) -> Option<Seq<char>> {
    if t == "sleeper"@ {
        Some(if l == Lang::De { "🛏️ Schlafwagen"@ } else { "🛏️ Sleeper"@ })
    } else if t == "couchette"@ {
        Some(if l == Lang::De { "🛌 Liegewagen"@ } else { "🛌 Couchette"@ })
    } else if t == "passenger"@ {
        Some(if l == Lang::De { "🪑 Sitzwagen"@ } else { "🪑 Seating car"@ })
    } else if t == "car"@ {
        Some(if l == Lang::De { "🚗 Autotransport"@ } else { "🚗 Car carrier"@ })
    } else if t == "restaurant"@ {
        Some("🍽️ Restaurant"@)
    } else {
        None
    }
}

/// The label of the first car type in `ts` that has one.
pub open spec fn first_car_type(l: Lang, ts: Seq<Seq<char>>) -> Option<Seq<char>>
    decreases ts.len(),
{
    if ts.len() == 0 {
        None
    } else {
        match car_type_seq(l, ts[0]) {
            Some(label) => Some(label),
            None => first_car_type(l, ts.drop_first()),
        }
    }
}

/// The class named by one segment of a wagon symbol.
pub open spec fn class_segment(l: Lang, seg: Seq<char>) -> Option<Seq<char>> {
    if seg == "1"@ {
        Some(if l == Lang::De { "1. Klasse"@ } else { "1st class"@ })
    } else if seg == "2"@ {
        Some(if l == Lang::De { "2. Klasse"@ } else { "2nd class"@ })
    } else if seg == "B"@ {
        Some("Business"@)
    } else if seg == "C"@ {
        Some("Comfort"@)
    } else {
        None
    }
}

/// The class labels of the segments that name a class, in order.
pub open spec fn class_labels(l: Lang, segs: Seq<Seq<char>>) -> Seq<Seq<char>>
    decreases segs.len(),
{
    if segs.len() == 0 {
        Seq::<Seq<char>>::empty()
    } else {
        let rest = class_labels(l, segs.drop_last());
        match class_segment(l, segs.last()) {
            Some(label) => rest.push(label),
            None => rest,
        }
    }
}

/// The passenger classes of a wagon symbol: the segments after the vehicle
/// prefix, split at `_`, joined with ` + `; `None` when no segment names one.
pub open spec fn class_label_seq(l: Lang, symbol: Seq<char>) -> Option<Seq<char>> {
    let labels = class_labels(l, split_seq(symbol, '_').drop_first());
    if labels.len() == 0 {
        None
    } else {
        Some(join_seq(labels, " + "@))
    }
}

/// The label of an amenity icon code; unknown codes stand for themselves.
pub open spec fn icon_seq(l: Lang, icon: Seq<char>) -> Seq<char> {
    if icon == "wlan"@ {
        if l == Lang::De { "📶 WLAN"@ } else { "📶 Wi-Fi"@ }
    } else if icon == "bicycle"@ {
        if l == Lang::De { "🚲 Fahrrad"@ } else { "🚲 Bicycle"@ }
    } else if icon == "disabled"@ {
        if l == Lang::De { "♿ Rollstuhl"@ } else { "♿ Wheelchair"@ }
    } else if icon == "bistro"@ {
        "🍽️ Bistro"@
    } else if icon == "motherchild"@ {
        if l == Lang::De { "👪 Familie"@ } else { "👪 Family"@ }
    } else if icon == "silence"@ {
        if l == Lang::De { "🔇 Ruhe"@ } else { "🔇 Quiet"@ }
    } else {
        icon
    }
}

/// The language that locale values select: the first value that is set and
/// not empty decides, lower-cased; English if it starts with `en`, German
/// otherwise; German when none is set.
pub open spec fn detect_seq(vars: Seq<Option<Seq<char>>>) -> Lang
    decreases vars.len(),
{
    if vars.len() == 0 {
        Lang::De
    } else {
        match vars[0] {
            Some(v) if v.len() > 0 => if starts_with_seq(lowercase(v), "en"@) {
                Lang::En
            } else {
                Lang::De
            },
            _ => detect_seq(vars.drop_first()),
        }
    }
}

/// The view of a list of optional strings.
pub open spec fn opt_strings_view(v: Seq<Option<String>>) -> Seq<Option<Seq<char>>> {
    v.map_values(|o: Option<String>| match o {
        Some(s) => Some(s@),
        None => None,
    })
}

impl Lang {
    /// Short code used in the config file.
    pub fn code(&self) -> (r: &'static str)
        ensures
            r@ == code_seq(*self),
    {
        match self {
            Lang::De => "de",
            Lang::En => "en",
        }
    }

    /// Parse a code (`de`/`en`, any case, surrounding whitespace ignored).
    pub fn from_code(s: &str) -> (r: Option<Lang>)
        ensures
            r == code_of_text(s@),
    {
        let t = trim(s);
        let low = to_lowercase(t.as_str());
        if text_eq(low.as_str(), "de") {
            Some(Lang::De)
        } else if text_eq(low.as_str(), "en") {
            Some(Lang::En)
        } else {
            None
        }
    }

    /// Switch to the other language.
    pub fn toggle(&self) -> (r: Lang)
        ensures
            r == other(*self),
    {
        match self {
            Lang::De => Lang::En,
            Lang::En => Lang::De,
        }
    }

    /// The language the locale selects, given the values of `LC_ALL`,
    /// `LC_MESSAGES` and `LANG`, in that order (`None` where unset).
    pub fn detect(vars: &Vec<Option<String>>) -> (r: Lang)
        ensures
            r == detect_seq(opt_strings_view(vars@)),
    {
        let ghost all = opt_strings_view(vars@);
        let en = chars_of("en");
        let mut i: usize = 0;
        assert(all.skip(0) =~= all);
        while i < vars.len()
            invariant
                i <= vars.len(),
                all == opt_strings_view(vars@),
                en@ == "en"@,
                detect_seq(all) == detect_seq(all.skip(i as int)),
            decreases vars.len() - i,
        {
            assert(all.skip(i as int).drop_first() =~= all.skip(i + 1));
            assert(all.skip(i as int)[0] == all[i as int]);
            match &vars[i] {
                Some(v) => {
                    let low = to_lowercase(v.as_str());
                    let cs = chars_of(low.as_str());
                    if cs.len() > 0 {
                        if starts_with(&cs, &en) {
                            return Lang::En;
                        } else {
                            return Lang::De;
                        }
                    }
                },
                None => {},
            }
            i += 1;
        }
        Lang::De
    }

    /// Startup language: the saved one if there is one, else the detected one.
    pub fn initial(saved: Option<Lang>, detected: Lang) -> (r: Lang)
        ensures
            r == match saved {
                Some(l) => l,
                None => detected,
            },
    {
        match saved {
            Some(l) => l,
            None => detected,
        }
    }

    /// The string table of a language.
    pub open spec fn tr_spec(self) -> Tr {
        match self {
            Lang::De => de_table(),
            Lang::En => en_table(),
        }
    }

    /// The string table for this language.
    pub fn tr(&self) -> (r: Tr)
        ensures
            r == self.tr_spec(),
    {
        match self {
            Lang::De => build_de(),
            Lang::En => build_en(),
        }
    }

    /// The label of a single car type.
    fn car_type_of(&self, t: &str) -> (r: Option<&'static str>)
        ensures
            opt_text(r) == car_type_seq(*self, t@),
    {
        if text_eq(t, "sleeper") {
            Some(
                match self {
                    Lang::De => "🛏️ Schlafwagen",
                    Lang::En => "🛏️ Sleeper",
                },
            )
        } else if text_eq(t, "couchette") {
            Some(
                match self {
                    Lang::De => "🛌 Liegewagen",
                    Lang::En => "🛌 Couchette",
                },
            )
        } else if text_eq(t, "passenger") {
            Some(
                match self {
                    Lang::De => "🪑 Sitzwagen",
                    Lang::En => "🪑 Seating car",
                },
            )
        } else if text_eq(t, "car") {
            Some(
                match self {
                    Lang::De => "🚗 Autotransport",
                    Lang::En => "🚗 Car carrier",
                },
            )
        } else if text_eq(t, "restaurant") {
            Some("🍽️ Restaurant")
        } else {
            None
        }
    }

    /// Label for a notable wagon car type (night-train cars, restaurant, ...):
    /// the first of `types` that has one, or `None`.
    pub fn car_type_label(&self, types: &[String]) -> (r: Option<&'static str>)
        ensures
            opt_text(r) == first_car_type(*self, types@.map_values(|t: String| t@)),
    {
        let ghost all = types@.map_values(|t: String| t@);
        let mut i: usize = 0;
        assert(all.skip(0) =~= all);
        while i < types.len()
            invariant
                i <= types.len(),
                all == types@.map_values(|t: String| t@),
                first_car_type(*self, all) == first_car_type(*self, all.skip(i as int)),
            decreases types.len() - i,
        {
            assert(all.skip(i as int).drop_first() =~= all.skip(i + 1));
            assert(all.skip(i as int)[0] == types@[i as int]@);
            let found = self.car_type_of(types[i].as_str());
            if found.is_some() {
                return found;
            }
            i += 1;
        }
        None
    }

    /// The class named by one symbol segment.
    fn class_of(&self, seg: &str) -> (r: Option<&'static str>)
        ensures
            opt_text(r) == class_segment(*self, seg@),
    {
        if text_eq(seg, "1") {
            Some(
                match self {
                    Lang::De => "1. Klasse",
                    Lang::En => "1st class",
                },
            )
        } else if text_eq(seg, "2") {
            Some(
                match self {
                    Lang::De => "2. Klasse",
                    Lang::En => "2nd class",
                },
            )
        } else if text_eq(seg, "B") {
            Some("Business")
        } else if text_eq(seg, "C") {
            Some("Comfort")
        } else {
            None
        }
    }

    /// Decode the passenger class(es) from a wagon's `symbol` code, e.g. `W_1`
    /// gives "1. Klasse" / "1st class" and `W_C_1` "Comfort + 1st class".
    /// `None` for symbols that carry no class.
    pub fn class_label(&self, symbol: &str) -> (r: Option<String>)
        ensures
            match r {
                Some(s) => class_label_seq(*self, symbol@) == Some(s@),
                None => class_label_seq(*self, symbol@) is None,
            },
    {
        let segs = split(symbol, '_');
        let ghost rest = segs.deep_view().drop_first();
        let mut labels: Vec<String> = Vec::new();
        let mut i: usize = 1;
        assert(rest.take(0) =~= Seq::<Seq<char>>::empty());
        while i < segs.len()
            invariant
                1 <= i <= segs.len(),
                rest == segs.deep_view().drop_first(),
                labels.deep_view() == class_labels(*self, rest.take(i - 1)),
            decreases segs.len() - i,
        {
            assert(rest.take(i as int).drop_last() =~= rest.take(i - 1));
            assert(rest.take(i as int).last() == segs.deep_view()[i as int]);
            match self.class_of(segs[i].as_str()) {
                Some(label) => {
                    labels.push(copy_str(label));
                    assert(labels.deep_view() =~= class_labels(*self, rest.take(i - 1)).push(
                        label@,
                    ));
                },
                None => {},
            }
            i += 1;
        }
        assert(rest.take(i - 1) =~= rest);
        if labels.len() == 0 {
            None
        } else {
            Some(join(&labels, " + "))
        }
    }

    /// Label for an onboard amenity icon code; unknown codes pass through.
    pub fn icon_label(&self, icon: &str) -> (r: String)
        ensures
            r@ == icon_seq(*self, icon@),
    {
        let label: &str = if text_eq(icon, "wlan") {
            match self {
                Lang::De => "📶 WLAN",
                Lang::En => "📶 Wi-Fi",
            }
        } else if text_eq(icon, "bicycle") {
            match self {
                Lang::De => "🚲 Fahrrad",
                Lang::En => "🚲 Bicycle",
            }
        } else if text_eq(icon, "disabled") {
            match self {
                Lang::De => "♿ Rollstuhl",
                Lang::En => "♿ Wheelchair",
            }
        } else if text_eq(icon, "bistro") {
            "🍽️ Bistro"
        } else if text_eq(icon, "motherchild") {
            match self {
                Lang::De => "👪 Familie",
                Lang::En => "👪 Family",
            }
        } else if text_eq(icon, "silence") {
            match self {
                Lang::De => "🔇 Ruhe",
                Lang::En => "🔇 Quiet",
            }
        } else {
            icon
        };
        copy_str(label)
    }
}

/// A table of translatable UI strings; [`Lang::tr`] gives the one of a language.
#[derive(Clone, Copy)]
pub struct Tr {
    // Main board
    pub departures: &'static str,
    pub arrivals: &'static str,
    pub col_time: &'static str,
    pub col_actual: &'static str,
    pub col_delay: &'static str,
    pub col_train: &'static str,
    pub col_line: &'static str,
    pub col_dest: &'static str,
    pub col_from: &'static str,
    pub col_track: &'static str,
    pub col_sector: &'static str,
    pub col_remarks: &'static str,
    pub block_trains: &'static str,
    pub block_notices: &'static str,
    pub block_status: &'static str,
    pub last_update: &'static str,
    pub connecting: &'static str,
    pub connected: &'static str,
    pub connection_failed: &'static str,
    // Station picker
    pub select_station: &'static str,
    pub search: &'static str,
    pub stations: &'static str,
    pub of: &'static str,
    pub shown: &'static str,
    pub station_help: &'static str,
    // Train detail
    pub train: &'static str,
    pub departure: &'static str,
    pub arrival: &'static str,
    pub delay: &'static str,
    pub min: &'static str,
    pub track: &'static str,
    pub sector: &'static str,
    pub operator: &'static str,
    pub remarks: &'static str,
    pub major_stops: &'static str,
    pub all_stops: &'static str,
    pub formation: &'static str,
    pub locomotive: &'static str,
    pub coach: &'static str,
    pub closed: &'static str,
    pub details: &'static str,
    pub detail_help: &'static str,
    pub no_train: &'static str,
    // Main key hints (bracketed key + suffix, e.g. "[A]" + "nk")
    pub detail: &'static str,
    pub hint_arr: &'static str,
    pub hint_dep: &'static str,
    pub hint_stn: &'static str,
    pub hint_ref: &'static str,
    pub hint_lang: &'static str,
    pub hint_quit: &'static str,
}

/// The German string table.
pub open spec fn de_table() -> Tr {
    Tr {
        departures: "ABFAHRTEN",
        arrivals: "ANKÜNFTE",
        col_time: "ZEIT",
        col_actual: "IST",
        col_delay: "VERSP.",
        col_train: "ZUG",
        col_line: "LINIE",
        col_dest: "ZIEL",
        col_from: "VON",
        col_track: "GLEIS",
        col_sector: "SEKTOR",
        col_remarks: "BEMERKUNGEN",
        block_trains: "Züge",
        block_notices: "Hinweise",
        block_status: "Status",
        last_update: "Letzte Aktualisierung: ",
        connecting: "Verbinde...",
        connected: "Verbunden",
        connection_failed: "Verbindung fehlgeschlagen",
        select_station: "Station wählen",
        search: "Suche: ",
        stations: "Stationen",
        of: "von",
        shown: "angezeigt",
        station_help: "↑↓: Navigieren | Enter: Auswählen | Esc: Abbrechen",
        train: "Zug",
        departure: "Abfahrt",
        arrival: "Ankunft",
        delay: "Verspätung",
        min: "Min",
        track: "Gleis",
        sector: "Sektor",
        operator: "Betreiber",
        remarks: "Bemerkungen",
        major_stops: "Wichtige Halte",
        all_stops: "Alle Zwischenhalte",
        formation: "Zugformation",
        locomotive: "Lokomotive",
        coach: "Wagen",
        closed: "(geschlossen)",
        details: "Details",
        detail_help: "↑↓: Züge | PgUp/PgDn: Scrollen | Esc/Q: Schließen",
        no_train: "Kein Zug ausgewählt",
        detail: "Detail",
        hint_arr: "nk",
        hint_dep: "ep",
        hint_stn: "tn",
        hint_ref: "ef",
        hint_lang: "ang",
        hint_quit: "uit",
    }
}

/// The English string table.
pub open spec fn en_table() -> Tr {
    Tr {
        departures: "DEPARTURES",
        arrivals: "ARRIVALS",
        col_time: "TIME",
        col_actual: "ACT.",
        col_delay: "DELAY",
        col_train: "TRAIN",
        col_line: "LINE",
        col_dest: "DEST.",
        col_from: "FROM",
        col_track: "TRACK",
        col_sector: "SECTOR",
        col_remarks: "REMARKS",
        block_trains: "Trains",
        block_notices: "Notices",
        block_status: "Status",
        last_update: "Last update: ",
        connecting: "Connecting...",
        connected: "Connected",
        connection_failed: "Connection failed",
        select_station: "Select station",
        search: "Search: ",
        stations: "Stations",
        of: "of",
        shown: "shown",
        station_help: "↑↓: Navigate | Enter: Select | Esc: Cancel",
        train: "Train",
        departure: "Departure",
        arrival: "Arrival",
        delay: "Delay",
        min: "min",
        track: "Track",
        sector: "Sector",
        operator: "Operator",
        remarks: "Remarks",
        major_stops: "Major stops",
        all_stops: "All stops",
        formation: "Train formation",
        locomotive: "Locomotive",
        coach: "Coach",
        closed: "(closed)",
        details: "Details",
        detail_help: "↑↓: Trains | PgUp/PgDn: Scroll | Esc/Q: Close",
        no_train: "No train selected",
        detail: "Detail",
        hint_arr: "rr",
        hint_dep: "ep",
        hint_stn: "tn",
        hint_ref: "ef",
        hint_lang: "ang",
        hint_quit: "uit",
    }
}

/// The German string table, built.
fn build_de() -> (r: Tr)
    ensures
        r == de_table(),
{
    Tr {
        departures: "ABFAHRTEN",
        arrivals: "ANKÜNFTE",
        col_time: "ZEIT",
        col_actual: "IST",
        col_delay: "VERSP.",
        col_train: "ZUG",
        col_line: "LINIE",
        col_dest: "ZIEL",
        col_from: "VON",
        col_track: "GLEIS",
        col_sector: "SEKTOR",
        col_remarks: "BEMERKUNGEN",
        block_trains: "Züge",
        block_notices: "Hinweise",
        block_status: "Status",
        last_update: "Letzte Aktualisierung: ",
        connecting: "Verbinde...",
        connected: "Verbunden",
        connection_failed: "Verbindung fehlgeschlagen",
        select_station: "Station wählen",
        search: "Suche: ",
        stations: "Stationen",
        of: "von",
        shown: "angezeigt",
        station_help: "↑↓: Navigieren | Enter: Auswählen | Esc: Abbrechen",
        train: "Zug",
        departure: "Abfahrt",
        arrival: "Ankunft",
        delay: "Verspätung",
        min: "Min",
        track: "Gleis",
        sector: "Sektor",
        operator: "Betreiber",
        remarks: "Bemerkungen",
        major_stops: "Wichtige Halte",
        all_stops: "Alle Zwischenhalte",
        formation: "Zugformation",
        locomotive: "Lokomotive",
        coach: "Wagen",
        closed: "(geschlossen)",
        details: "Details",
        detail_help: "↑↓: Züge | PgUp/PgDn: Scrollen | Esc/Q: Schließen",
        no_train: "Kein Zug ausgewählt",
        detail: "Detail",
        hint_arr: "nk",
        hint_dep: "ep",
        hint_stn: "tn",
        hint_ref: "ef",
        hint_lang: "ang",
        hint_quit: "uit",
    }
}

/// The English string table, built.
fn build_en() -> (r: Tr)
    ensures
        r == en_table(),
{
    Tr {
        departures: "DEPARTURES",
        arrivals: "ARRIVALS",
        col_time: "TIME",
        col_actual: "ACT.",
        col_delay: "DELAY",
        col_train: "TRAIN",
        col_line: "LINE",
        col_dest: "DEST.",
        col_from: "FROM",
        col_track: "TRACK",
        col_sector: "SECTOR",
        col_remarks: "REMARKS",
        block_trains: "Trains",
        block_notices: "Notices",
        block_status: "Status",
        last_update: "Last update: ",
        connecting: "Connecting...",
        connected: "Connected",
        connection_failed: "Connection failed",
        select_station: "Select station",
        search: "Search: ",
        stations: "Stations",
        of: "of",
        shown: "shown",
        station_help: "↑↓: Navigate | Enter: Select | Esc: Cancel",
        train: "Train",
        departure: "Departure",
        arrival: "Arrival",
        delay: "Delay",
        min: "min",
        track: "Track",
        sector: "Sector",
        operator: "Operator",
        remarks: "Remarks",
        major_stops: "Major stops",
        all_stops: "All stops",
        formation: "Train formation",
        locomotive: "Locomotive",
        coach: "Coach",
        closed: "(closed)",
        details: "Details",
        detail_help: "↑↓: Trains | PgUp/PgDn: Scroll | Esc/Q: Close",
        no_train: "No train selected",
        detail: "Detail",
        hint_arr: "rr",
        hint_dep: "ep",
        hint_stn: "tn",
        hint_ref: "ef",
        hint_lang: "ang",
        hint_quit: "uit",
    }
}

} // verus!
