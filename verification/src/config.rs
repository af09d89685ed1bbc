//! The persisted settings: the chosen UI language, stored as a single
//! `language = de|en` line. Reading and writing the file happen outside the
//! library; the text is made and read here.

use vstd::prelude::*;
use crate::lang::{code_of_text, code_seq, Lang};
use crate::text::{
    chars_of, copy_str, split_seq, starts_with, starts_with_seq, string_of, trim,
    trim_bounds, trim_seq, trim_start_seq, text_eq, split_chars,
};

verus! {

broadcast use vstd::string::group_string_axioms;

/// The pieces of `s` that `str::lines` gives: split at `\n`, a `\r` before
/// each `\n` dropped, and no empty piece after a final `\n`.
pub open spec fn lines_seq(s: Seq<char>) -> Seq<Seq<char>> {
    let parts = split_seq(s, '\n');
    let body = parts.drop_last().map_values(|p: Seq<char>| strip_cr(p));
    if parts.last().len() == 0 {
        body
    } else {
        body.push(parts.last())
    }
}

/// `p` without one trailing `\r`.
pub open spec fn strip_cr(p: Seq<char>) -> Seq<char> {
    if p.len() > 0 && p.last() == '\r' {
        p.drop_last()
    } else {
        p
    }
}

/// The language one config line sets: after trimming it must read
/// `language`, optional whitespace, `=`, then a language code.
pub open spec fn line_lang(l: Seq<char>) -> Option<Lang> {
    let t = trim_seq(l);
    if starts_with_seq(t, "language"@) {
        let v = trim_start_seq(t.skip(8));
        if v.len() > 0 && v[0] == '=' {
            code_of_text(trim_seq(v.skip(1)))
        } else {
            None
        }
    } else {
        None
    }
}

/// The language the first line that sets one sets.
pub open spec fn first_line_lang(lines: Seq<Seq<char>>) -> Option<Lang>
    decreases lines.len(),
{
    if lines.len() == 0 {
        None
    } else {
        match line_lang(lines[0]) {
            Some(l) => Some(l),
            None => first_line_lang(lines.drop_first()),
        }
    }
}

/// The config file's text for a language.
pub open spec fn config_text_seq(l: Lang) -> Seq<char> {
    "language = "@ + code_seq(l) + "\n"@
}

/// The text of the config file that saves `lang`.
pub fn config_text(lang: Lang) -> (r: String)
    ensures
        r@ == config_text_seq(lang),
{
    let mut r = copy_str("language = ");
    r.append(lang.code());
    r.append("\n");
    r
}

/// The language one line of the config file sets, if any.
fn parse_line(line: &Vec<char>) -> (r: Option<Lang>)
    ensures
        r == line_lang(line@),
{
    let (lo, hi) = trim_bounds(line);
    let mut t: Vec<char> = Vec::new();
    let mut i = lo;
    while i < hi
        invariant
            lo <= i <= hi <= line.len(),
            t@ == line@.subrange(lo as int, i as int),
        decreases hi - i,
    {
        t.push(line[i]);
        i += 1;
        assert(t@ =~= line@.subrange(lo as int, i as int));
    }
    let key = chars_of("language");
    proof {
        reveal_strlit("language");
    }
    if !starts_with(&t, &key) {
        return None;
    }
    let mut rest: Vec<char> = Vec::new();
    let mut j: usize = 8;
    while j < t.len()
        invariant
            8 <= j <= t.len(),
            rest@ == t@.subrange(8, j as int),
        decreases t.len() - j,
    {
        rest.push(t[j]);
        j += 1;
        assert(rest@ =~= t@.subrange(8, j as int));
    }
    assert(rest@ =~= t@.skip(8));
    let rs = string_of(&rest);
    let v = crate::text::trim_start(rs.as_str());
    let vc = chars_of(v.as_str());
    if vc.len() == 0 || vc[0] != '=' {
        return None;
    }
    let mut tail: Vec<char> = Vec::new();
    let mut k: usize = 1;
    while k < vc.len()
        invariant
            1 <= k <= vc.len(),
            tail@ == vc@.subrange(1, k as int),
        decreases vc.len() - k,
    {
        tail.push(vc[k]);
        k += 1;
        assert(tail@ =~= vc@.subrange(1, k as int));
    }
    assert(tail@ =~= vc@.skip(1));
    let ts = string_of(&tail);
    let value = trim(ts.as_str());
    Lang::from_code(value.as_str())
}

/// The language saved in the config file's text: the first line of the form
/// `language = <code>` with a known code decides; `None` when there is none.
pub fn parse_config(content: &str) -> (r: Option<Lang>)
    ensures
        r == first_line_lang(lines_seq(content@)),
{
    let cs = chars_of(content);
    let parts = split_chars(&cs, '\n');
    let ghost ps = parts.deep_view();
    let ghost ls = lines_seq(content@);
    let n = parts.len();
    proof {
        crate::text::lemma_split_nonempty(content@, '\n');
    }
    let mut i: usize = 0;
    assert(ls.skip(0) =~= ls);
    while i < n
        invariant
            n == parts.len(),
            ps == parts.deep_view(),
            ps == split_seq(content@, '\n'),
            ls == lines_seq(content@),
            n >= 1,
            i <= n,
            first_line_lang(ls) == first_line_lang(ls.skip(i as int)),
            i <= ls.len(),
            i < n - 1 ==> ls[i as int] == strip_cr(ps[i as int]),
        decreases n - i,
    {
        let pc = chars_of(parts[i].as_str());
        let is_last = i + 1 == n;
        if is_last && pc.len() == 0 {
            assert(ls.len() == i);
            assert(ls.skip(i as int) =~= Seq::<Seq<char>>::empty());
            return None;
        }
        let line: Vec<char> = if !is_last && pc.len() > 0 && pc[pc.len() - 1] == '\r' {
            let mut l: Vec<char> = Vec::new();
            let mut j: usize = 0;
            while j < pc.len() - 1
                invariant
                    j <= pc.len() - 1,
                    pc.len() > 0,
                    l@ == pc@.take(j as int),
                decreases pc.len() - 1 - j,
            {
                l.push(pc[j]);
                j += 1;
                assert(l@ =~= pc@.take(j as int));
            }
            assert(l@ =~= pc@.drop_last());
            l
        } else {
            pc
        };
        assert(line@ == ls[i as int]);
        assert(ls.skip(i as int)[0] == ls[i as int]);
        match parse_line(&line) {
            Some(l) => return Some(l),
            None => {},
        }
        assert(ls.skip(i as int).drop_first() =~= ls.skip(i + 1));
        i += 1;
    }
    assert(ls.skip(i as int) =~= Seq::<Seq<char>>::empty());
    None
}

/// Whether `args` holds `long` or `short` (a command-line flag).
pub fn has_flag(args: &Vec<String>, long: &str, short: &str) -> (r: bool)
    ensures
        r == exists|i: int| 0 <= i < args@.len() && ((#[trigger] args@[i])@ == long@ || args@[i]@ == short@),
{
    let mut i: usize = 0;
    while i < args.len()
        invariant
            i <= args.len(),
            forall|k: int| 0 <= k < i ==> !((#[trigger] args@[k])@ == long@ || args@[k]@ == short@),
        decreases args.len() - i,
    {
        if text_eq(args[i].as_str(), long) || text_eq(args[i].as_str(), short) {
            return true;
        }
        i += 1;
    }
    false
}

} // verus!
