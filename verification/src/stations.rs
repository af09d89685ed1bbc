//! The station table: station ids and names read from a JSON object of
//! strings (through `serde_json`), with the ids trimmed of whitespace.

use vstd::prelude::*;
use crate::text::{chars_eq, chars_of, trim_bounds, trim_seq, push_range};

verus! {

broadcast use vstd::string::group_string_axioms;

/// What `serde_json::from_str::<HashMap<String, String>>` makes of a text: the
/// object's entries as a map, or `None` when the text is not a JSON object of
/// strings.
pub uninterp spec fn json_string_map(text: Seq<char>) -> Option<Map<Seq<char>, Seq<char>>>;

/// The pairs list exactly the entries of `m`, each key once.
pub open spec fn pairs_of_map(v: Seq<(String, String)>, m: Map<Seq<char>, Seq<char>>) -> bool {
    &&& forall|i: int| 0 <= i < v.len() ==> #[trigger] m.contains_key(v[i].0@) && m[v[i].0@] == v[i].1@
    &&& forall|k: Seq<char>| #[trigger] m.contains_key(k) ==> exists|i: int| 0 <= i < v.len() && (#[trigger] v[i].0)@ == k
    &&& distinct_keys(v)
}

/// No two entries share a key.
pub open spec fn distinct_keys(v: Seq<(String, String)>) -> bool {
    forall|i: int, j: int| 0 <= i < j < v.len() ==> (#[trigger] v[i].0)@ != (#[trigger] v[j].0)@
}

/// Calls `serde_json::from_str` for a `HashMap<String, String>` and lists its
/// entries. The entries come in the order the hash map is walked, which varies
/// between runs: the contract names the map and states that the list holds
/// each of its entries once, and nothing of the order.
#[verifier::external_body]
fn parse_string_map(text: &str) -> (r: Option<Vec<(String, String)>>)
    ensures
        r is Some <==> json_string_map(text@) is Some,
        r matches Some(v) ==> pairs_of_map(v@, json_string_map(text@).unwrap()),
{
    match serde_json::from_str::<std::collections::HashMap<String, String>>(text) {
        Ok(m) => Some(m.into_iter().collect()),
        Err(_) => None,
    }
}

/// The table built from `m`: each entry's key is the trim of a key of `m` and
/// its name is that key's value; every key of `m` is there, trimmed; no two
/// entries share a key.
pub open spec fn table_of_map(t: Seq<(String, String)>, m: Map<Seq<char>, Seq<char>>) -> bool {
    &&& forall|i: int| 0 <= i < t.len() ==> #[trigger] sourced(m, t[i])
    &&& forall|k: Seq<char>| #[trigger] m.contains_key(k) ==> has_key(t, trim_seq(k))
    &&& distinct_keys(t)
}

/// The entry's id is the trim of a key of `m` whose value is the entry's name.
pub open spec fn sourced(m: Map<Seq<char>, Seq<char>>, e: (String, String)) -> bool {
    exists|k: Seq<char>| #[trigger] m.contains_key(k) && trim_seq(k) == e.0@ && m[k] == e.1@
}

/// Some entry of `t` has the id `key`.
pub open spec fn has_key(t: Seq<(String, String)>, key: Seq<char>) -> bool {
    exists|i: int| 0 <= i < t.len() && (#[trigger] t[i].0)@ == key
}

/// The station table of a JSON text: empty when the text is not a JSON object
/// of strings.
pub open spec fn station_table_of(t: Seq<(String, String)>, text: Seq<char>) -> bool {
    match json_string_map(text) {
        Some(m) => table_of_map(t, m),
        None => t.len() == 0,
    }
}

/// Build the station table (id, name) from a JSON object of strings, trimming
/// the ids. Where two ids trim to the same one, one of their names stays.
pub fn load_stations(text: &str) -> (r: Vec<(String, String)>)
    ensures
        station_table_of(r@, text@),
{
    match parse_string_map(text) {
        Some(pairs) => {
            let ghost m = json_string_map(text@).unwrap();
            trimmed_table(pairs, Ghost(m))
        },
        None => Vec::new(),
    }
}

/// The index of the entry whose key is `k`, if any.
fn find_key(keys: &Vec<Vec<char>>, k: &Vec<char>) -> (r: Option<usize>)
    ensures
        match r {
            Some(i) => i < keys.len() && keys@[i as int]@ == k@,
            None => forall|i: int| 0 <= i < keys.len() ==> (#[trigger] keys@[i])@ != k@,
        },
{
    let mut i: usize = 0;
    while i < keys.len()
        invariant
            i <= keys.len(),
            forall|j: int| 0 <= j < i ==> (#[trigger] keys@[j])@ != k@,
        decreases keys.len() - i,
    {
        if chars_eq(&keys[i], k) {
            return Some(i);
        }
        i += 1;
    }
    None
}

fn trimmed_table(pairs: Vec<(String, String)>, Ghost(m): Ghost<Map<Seq<char>, Seq<char>>>) -> (r: Vec<(String, String)>)
    requires
        pairs_of_map(pairs@, m),
    ensures
        table_of_map(r@, m),
{
    let ghost orig = pairs@;
    let mut src = pairs;
    let mut out: Vec<(String, String)> = Vec::new();
    let mut keys: Vec<Vec<char>> = Vec::new();
    let n = src.len();
    let mut k: usize = 0;
    assert(orig.skip(0) =~= orig);
    while k < n
        invariant
            n == orig.len(),
            k <= n,
            pairs_of_map(orig, m),
            src@ == orig.skip(k as int),
            keys.len() == out.len(),
            forall|i: int| 0 <= i < keys.len() ==> (#[trigger] keys@[i])@ == out@[i].0@,
            forall|i: int| 0 <= i < out.len() ==> #[trigger] sourced(m, out@[i]),
            forall|j: int| 0 <= j < k ==> has_key(out@, trim_seq(#[trigger] orig[j].0@)),
            distinct_keys(out@),
        decreases n - k,
    {
        let (key, name) = src.remove(0);
        assert(orig[k as int] == (key, name));
        assert(src@ =~= orig.skip(k + 1));
        assert(m.contains_key(key@));
        let cs = chars_of(key.as_str());
        let (lo, hi) = trim_bounds(&cs);
        let mut tk = String::new();
        push_range(&mut tk, &cs, lo, hi);
        assert(tk@ == trim_seq(key@));
        let tkc = chars_of(tk.as_str());
        let ghost before = out@;
        match find_key(&keys, &tkc) {
            Some(i) => {
                let old_key = out[i].0.clone();
                out.set(i, (old_key, name));
                assert forall|j: int| 0 <= j < out.len() implies #[trigger] sourced(m, out@[j]) by {
                    if j == i {
                        assert(m.contains_key(key@) && trim_seq(key@) == out@[j].0@ && m[key@] == out@[j].1@);
                    } else {
                        assert(out@[j] == before[j]);
                    }
                }
                assert forall|j: int| 0 <= j < k + 1 implies has_key(out@, trim_seq(#[trigger] orig[j].0@)) by {
                    if j == k {
                        assert(out@[i as int].0@ == trim_seq(orig[j].0@));
                    } else {
                        let ii = choose|ii: int| 0 <= ii < before.len() && (#[trigger] before[ii].0)@ == trim_seq(orig[j].0@);
                        assert(out@[ii].0@ == before[ii].0@);
                    }
                }
            },
            None => {
                out.push((tk, name));
                keys.push(tkc);
                assert forall|j: int| 0 <= j < out.len() implies #[trigger] sourced(m, out@[j]) by {
                    if j == before.len() {
                        assert(m.contains_key(key@) && trim_seq(key@) == out@[j].0@ && m[key@] == out@[j].1@);
                    } else {
                        assert(out@[j] == before[j]);
                    }
                }
                assert forall|j: int| 0 <= j < k + 1 implies has_key(out@, trim_seq(#[trigger] orig[j].0@)) by {
                    if j == k {
                        assert(out@[before.len() as int].0@ == trim_seq(orig[j].0@));
                    } else {
                        let ii = choose|ii: int| 0 <= ii < before.len() && (#[trigger] before[ii].0)@ == trim_seq(orig[j].0@);
                        assert(out@[ii] == before[ii]);
                    }
                }
                assert forall|a: int, b: int| 0 <= a < b < out.len() implies (#[trigger] out@[a].0)@ != (#[trigger] out@[b].0)@ by {
                    if b == before.len() {
                        assert(keys@[a]@ == out@[a].0@);
                    }
                }
            },
        }
        k += 1;
    }
    assert forall|q: Seq<char>| #[trigger] m.contains_key(q) implies has_key(out@, trim_seq(q)) by {
        let j = choose|j: int| 0 <= j < orig.len() && (#[trigger] orig[j].0)@ == q;
        assert(has_key(out@, trim_seq(orig[j].0@)));
    }
    out
}

} // verus!
