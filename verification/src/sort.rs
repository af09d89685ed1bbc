//! Stable sorting by a text key, the order in which `sort_by` with `cmp` on
//! strings leaves a list.

use vstd::prelude::*;
use crate::text::{chars_le, lemma_lex_refl, lemma_lex_total, lemma_lex_trans, lex_le};

verus! {

broadcast use vstd::seq_lib::group_to_multiset_ensures;

/// A value with a text key to sort by.
pub trait SortKey {
    /// The key.
    spec fn sort_key(&self) -> Seq<char>;

    /// The characters of the key.
    fn key_chars(&self) -> (r: Vec<char>)
        ensures
            r@ == self.sort_key(),
    ;
}

/// `x` placed into `s` after every element whose key is not greater.
pub open spec fn insert_by_key<T: SortKey>(s: Seq<T>, x: T) -> Seq<T>
    decreases s.len(),
{
    if s.len() == 0 {
        seq![x]
    } else if lex_le(s.last().sort_key(), x.sort_key()) {
        s.push(x)
    } else {
        insert_by_key(s.drop_last(), x).push(s.last())
    }
}

/// The stable sort of `s` by key: elements with equal keys keep their order.
pub open spec fn sort_by_key<T: SortKey>(s: Seq<T>) -> Seq<T>
    decreases s.len(),
{
    if s.len() == 0 {
        s
    } else {
        insert_by_key(sort_by_key(s.drop_last()), s.last())
    }
}

/// The keys never decrease along `s`.
pub open spec fn sorted_by_key<T: SortKey>(s: Seq<T>) -> bool {
    forall|i: int, j: int| 0 <= i <= j < s.len() ==> lex_le(#[trigger] s[i].sort_key(), #[trigger] s[j].sort_key())
}

proof fn lemma_insert_multiset<T: SortKey>(s: Seq<T>, x: T)
    ensures
        insert_by_key(s, x).to_multiset() =~= s.to_multiset().insert(x),
    decreases s.len(),
{
    if s.len() == 0 {
        assert(seq![x] =~= Seq::<T>::empty().push(x));
    } else if lex_le(s.last().sort_key(), x.sort_key()) {
    } else {
        lemma_insert_multiset(s.drop_last(), x);
        assert(s =~= s.drop_last().push(s.last()));
    }
}

proof fn lemma_insert_sorted<T: SortKey>(s: Seq<T>, x: T)
    requires
        sorted_by_key(s),
    ensures
        sorted_by_key(insert_by_key(s, x)),
    decreases s.len(),
{
    if s.len() == 0 {
        lemma_lex_refl(x.sort_key());
    } else if lex_le(s.last().sort_key(), x.sort_key()) {
        let r = s.push(x);
        assert forall|i: int, j: int| 0 <= i <= j < r.len() implies lex_le(
            #[trigger] r[i].sort_key(),
            #[trigger] r[j].sort_key(),
        ) by {
            if j == s.len() {
                if i < s.len() {
                    lemma_lex_trans(s[i].sort_key(), s.last().sort_key(), x.sort_key());
                } else {
                    lemma_lex_refl(x.sort_key());
                }
            }
        }
    } else {
        let d = s.drop_last();
        let last = s.last();
        lemma_insert_sorted(d, x);
        lemma_insert_multiset(d, x);
        lemma_lex_total(last.sort_key(), x.sort_key());
        let m = insert_by_key(d, x);
        let r = m.push(last);
        assert forall|i: int, j: int| 0 <= i <= j < r.len() implies lex_le(
            #[trigger] r[i].sort_key(),
            #[trigger] r[j].sort_key(),
        ) by {
            if j == m.len() {
                if i < m.len() {
                    let y = m[i];
                    assert(m.contains(y));
                    assert(m.to_multiset().count(y) > 0);
                    if y != x {
                        assert(d.to_multiset().count(y) > 0);
                        assert(d.contains(y));
                        let k = choose|k: int| 0 <= k < d.len() && d[k] == y;
                        assert(s[k] == y);
                        assert(s[s.len() - 1] == last);
                    }
                } else {
                    lemma_lex_refl(last.sort_key());
                }
            }
        }
    }
}

/// The sorted list holds exactly the elements given.
pub proof fn lemma_sort_multiset<T: SortKey>(s: Seq<T>)
    ensures
        sort_by_key(s).to_multiset() =~= s.to_multiset(),
    decreases s.len(),
{
    if s.len() > 0 {
        lemma_sort_multiset(s.drop_last());
        lemma_insert_multiset(sort_by_key(s.drop_last()), s.last());
        assert(s =~= s.drop_last().push(s.last()));
    }
}

/// The sorted list is in key order.
pub proof fn lemma_sort_sorted<T: SortKey>(s: Seq<T>)
    ensures
        sorted_by_key(sort_by_key(s)),
    decreases s.len(),
{
    if s.len() > 0 {
        lemma_sort_sorted(s.drop_last());
        lemma_insert_sorted(sort_by_key(s.drop_last()), s.last());
    }
}

/// Sort `v` stably by key.
pub fn sort_by_key_exec<T: SortKey>(v: Vec<T>) -> (r: Vec<T>)
    ensures
        r@ == sort_by_key(v@),
{
    let ghost orig = v@;
    let mut src = v;
    let mut out: Vec<T> = Vec::new();
    let mut keys: Vec<Vec<char>> = Vec::new();
    let n = src.len();
    let mut k: usize = 0;
    assert(orig.skip(0) =~= orig);
    assert(orig.take(0) =~= Seq::<T>::empty());
    while k < n
        invariant
            n == orig.len(),
            k <= n,
            src@ == orig.skip(k as int),
            out@ == sort_by_key(orig.take(k as int)),
            keys.len() == out.len(),
            forall|i: int| 0 <= i < keys.len() ==> (#[trigger] keys@[i])@ == out@[i].sort_key(),
        decreases n - k,
    {
        let x = src.remove(0);
        assert(x == orig[k as int]);
        let xk = x.key_chars();
        let ghost before = out@;
        let mut j = out.len();
        assert(before.take(j as int) =~= before);
        assert(before.skip(j as int) =~= Seq::<T>::empty());
        while j > 0 && !chars_le(&keys[j - 1], &xk)
            invariant
                j <= out.len(),
                out@ == before,
                keys.len() == out.len(),
                forall|i: int| 0 <= i < keys.len() ==> (#[trigger] keys@[i])@ == out@[i].sort_key(),
                xk@ == x.sort_key(),
                insert_by_key(before, x) == insert_by_key(before.take(j as int), x) + before.skip(
                    j as int,
                ),
            decreases j,
        {
            let ghost t = before.take(j as int);
            assert(t.drop_last() =~= before.take(j - 1));
            assert(before.skip(j - 1) =~= seq![t.last()] + before.skip(j as int));
            assert(insert_by_key(t, x) == insert_by_key(before.take(j - 1), x).push(t.last()));
            assert(insert_by_key(before.take(j - 1), x).push(t.last()) + before.skip(j as int)
                =~= insert_by_key(before.take(j - 1), x) + before.skip(j - 1));
            j -= 1;
        }
        proof {
            let t = before.take(j as int);
            if j == 0 {
                assert(t =~= Seq::<T>::empty());
            } else {
                assert(lex_le(t.last().sort_key(), x.sort_key()));
            }
            assert(insert_by_key(t, x) =~= t.push(x));
        }
        out.insert(j, x);
        keys.insert(j, xk);
        assert(out@ =~= insert_by_key(before, x));
        assert(orig.take(k + 1).drop_last() =~= orig.take(k as int));
        assert(orig.take(k + 1).last() == x);
        assert(src@ =~= orig.skip(k + 1));
        k += 1;
    }
    assert(orig.take(n as int) =~= orig);
    out
}

} // verus!
