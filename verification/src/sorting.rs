//! Stable ordering by a sort key, as the list views and the work queue use it:
//! items with equal keys keep the order they came in.
use vstd::prelude::*;

verus! {

/// A value items are ordered by: a number, or an optional text (absent text
/// first, texts by their characters' code points, a prefix first).
#[derive(Debug)]
pub enum SortKey {
    Number(i128),
    Text(Option<String>),
}

/// The contents of a sort key.
pub enum SortKeyView {
    Number(i128),
    Text(Option<Seq<char>>),
}

impl View for SortKey {
    type V = SortKeyView;

    open spec fn view(&self) -> SortKeyView {
        match self {
            SortKey::Number(n) => SortKeyView::Number(*n),
            SortKey::Text(t) => SortKeyView::Text(
                match t {
                    Some(s) => Some(s@),
                    None => None,
                },
            ),
        }
    }
}

/// The contents of a list of sort keys.
pub open spec fn keys_view(v: Seq<SortKey>) -> Seq<SortKeyView> {
    v.map_values(|k: SortKey| k@)
}

/// Texts in dictionary order of their characters' code points.
pub open spec fn lex_le(a: Seq<char>, b: Seq<char>) -> bool
    decreases a.len(),
{
    if a.len() == 0 {
        true
    } else if b.len() == 0 {
        false
    } else if (a[0] as u32) < (b[0] as u32) {
        true
    } else if (a[0] as u32) == (b[0] as u32) {
        lex_le(a.drop_first(), b.drop_first())
    } else {
        false
    }
}

/// The order of sort keys (numbers before texts; keys of one list are of one
/// kind).
pub open spec fn key_le(a: SortKeyView, b: SortKeyView) -> bool {
    match (a, b) {
        (SortKeyView::Number(x), SortKeyView::Number(y)) => x <= y,
        (SortKeyView::Number(_), SortKeyView::Text(_)) => true,
        (SortKeyView::Text(_), SortKeyView::Number(_)) => false,
        (SortKeyView::Text(x), SortKeyView::Text(y)) => match (x, y) {
            (None, _) => true,
            (Some(_), None) => false,
            (Some(s), Some(t)) => lex_le(s, t),
        },
    }
}

/// `a` may come before `b` in the given direction.
pub open spec fn dir_le(a: SortKeyView, b: SortKeyView, descending: bool) -> bool {
    if descending {
        key_le(b, a)
    } else {
        key_le(a, b)
    }
}

/// `o` lists each index below `n` exactly once.
pub open spec fn is_permutation(o: Seq<usize>, n: int) -> bool {
    &&& o.len() == n
    &&& forall|i: int| 0 <= i < o.len() ==> o[i] < n
    &&& forall|i: int, j: int| 0 <= i < j < o.len() ==> o[i] != o[j]
    &&& forall|v: usize| v < n ==> #[trigger] o.contains(v)
}

/// `o` orders the keys in the direction, and keys that order both ways keep
/// the order they came in.
pub open spec fn is_stable_order(keys: Seq<SortKeyView>, o: Seq<usize>, descending: bool) -> bool {
    &&& is_permutation(o, keys.len() as int)
    &&& forall|i: int, j: int| 0 <= i < j < o.len() ==> dir_le(#[trigger] keys[o[i] as int], #[trigger] keys[o[j] as int], descending)
    &&& forall|i: int, j: int|
        0 <= i < j < o.len() && dir_le(keys[o[j] as int], keys[o[i] as int], descending) ==> #[trigger] o[i] < #[trigger] o[j]
}

/// `o` applied to a sequence.
pub open spec fn reorder<T>(s: Seq<T>, o: Seq<usize>) -> Seq<T> {
    Seq::new(o.len(), |k: int| s[o[k] as int])
}

pub proof fn lemma_lex_total(a: Seq<char>, b: Seq<char>)
    ensures
        lex_le(a, b) || lex_le(b, a),
    decreases a.len(),
{
    if a.len() > 0 && b.len() > 0 && (a[0] as u32) == (b[0] as u32) {
        lemma_lex_total(a.drop_first(), b.drop_first());
    }
}

pub proof fn lemma_lex_trans(a: Seq<char>, b: Seq<char>, c: Seq<char>)
    requires
        lex_le(a, b),
        lex_le(b, c),
    ensures
        lex_le(a, c),
    decreases a.len(),
{
    if a.len() > 0 && b.len() > 0 && c.len() > 0 && (a[0] as u32) == (b[0] as u32) && (b[0] as u32) == (c[0] as u32) {
        lemma_lex_trans(a.drop_first(), b.drop_first(), c.drop_first());
    }
}

/// The key order in either direction is total.
pub proof fn lemma_dir_total(a: SortKeyView, b: SortKeyView, descending: bool)
    ensures
        dir_le(a, b, descending) || dir_le(b, a, descending),
{
    match (a, b) {
        (SortKeyView::Text(Some(s)), SortKeyView::Text(Some(t))) => lemma_lex_total(s, t),
        _ => {},
    }
}

/// The key order in either direction is transitive.
pub proof fn lemma_dir_trans(a: SortKeyView, b: SortKeyView, c: SortKeyView, descending: bool)
    requires
        dir_le(a, b, descending),
        dir_le(b, c, descending),
    ensures
        dir_le(a, c, descending),
{
    if descending {
        match (c, b, a) {
            (SortKeyView::Text(Some(s)), SortKeyView::Text(Some(t)), SortKeyView::Text(Some(u))) => lemma_lex_trans(s, t, u),
            _ => {},
        }
    } else {
        match (a, b, c) {
            (SortKeyView::Text(Some(s)), SortKeyView::Text(Some(t)), SortKeyView::Text(Some(u))) => lemma_lex_trans(s, t, u),
            _ => {},
        }
    }
}

/// Whether `a` may come before `b` in the given direction (see `dir_le`).
pub fn key_before(a: &SortKey, b: &SortKey, descending: bool) -> (res: bool)
    ensures
        res == dir_le(a@, b@, descending),
{
    if descending {
        key_le_exec(b, a)
    } else {
        key_le_exec(a, b)
    }
}

fn key_le_exec(a: &SortKey, b: &SortKey) -> (res: bool)
    ensures
        res == key_le(a@, b@),
{
    match (a, b) {
        (SortKey::Number(x), SortKey::Number(y)) => *x <= *y,
        (SortKey::Number(_), SortKey::Text(_)) => true,
        (SortKey::Text(_), SortKey::Number(_)) => false,
        (SortKey::Text(x), SortKey::Text(y)) => match (x, y) {
            (None, _) => true,
            (Some(_), None) => false,
            (Some(s), Some(t)) => lex_le_exec(s, t),
        },
    }
}

fn lex_le_exec(a: &String, b: &String) -> (res: bool)
    ensures
        res == lex_le(a@, b@),
{
    let x = crate::text::chars_of_string(a);
    let y = crate::text::chars_of_string(b);
    let mut i: usize = 0;
    assert(a@.subrange(0, a@.len() as int) =~= a@);
    assert(b@.subrange(0, b@.len() as int) =~= b@);
    while i < x.len()
        invariant
            i <= x.len(),
            x@ == a@,
            y@ == b@,
            i <= y.len(),
            lex_le(a@, b@) == lex_le(a@.subrange(i as int, a@.len() as int), b@.subrange(i as int, b@.len() as int)),
        decreases x.len() - i,
    {
        let ghost sa = a@.subrange(i as int, a@.len() as int);
        let ghost sb = b@.subrange(i as int, b@.len() as int);
        if i >= y.len() {
            assert(sb.len() == 0);
            return false;
        }
        assert(sa[0] == x[i as int] && sb[0] == y[i as int]);
        if (x[i] as u32) < (y[i] as u32) {
            return true;
        }
        if (x[i] as u32) != (y[i] as u32) {
            return false;
        }
        assert(sa.drop_first() =~= a@.subrange(i + 1, a@.len() as int));
        assert(sb.drop_first() =~= b@.subrange(i + 1, b@.len() as int));
        i += 1;
    }
    assert(a@.subrange(i as int, a@.len() as int).len() == 0);
    true
}

/// Inserting index `i` at the first position whose key comes strictly after
/// key `i` keeps a stable order of the first `i` keys stable for the first
/// `i + 1`.
proof fn lemma_insert_keeps_order(kv: Seq<SortKeyView>, before: Seq<usize>, i: usize, p: int, descending: bool)
    requires
        0 <= i < kv.len(),
        0 <= p <= before.len(),
        is_stable_order(kv.subrange(0, i as int), before, descending),
        forall|k: int| 0 <= k < p ==> dir_le(kv[before[k] as int], kv[i as int], descending),
        p < before.len() ==> !dir_le(kv[before[p] as int], kv[i as int], descending),
    ensures
        is_stable_order(kv.subrange(0, i + 1), before.insert(p, i), descending),
{
    let prev = kv.subrange(0, i as int);
    let next = kv.subrange(0, i + 1);
    let after = before.insert(p, i);
    assert(before.len() == i);
    assert forall|k: int| 0 <= k < before.len() implies #[trigger] prev[before[k] as int] == kv[before[k] as int] && next[before[k] as int] == kv[before[k] as int] by {}
    assert(next[i as int] == kv[i as int]);
    assert forall|k: int| 0 <= k < after.len() implies after[k] < i + 1 by {
        if k < p {
            assert(after[k] == before[k]);
        } else if k > p {
            assert(after[k] == before[k - 1]);
        }
    }
    assert forall|k: int, m: int| 0 <= k < m < after.len() implies after[k] != after[m] by {
        if k < p && m < p {
            assert(after[k] == before[k] && after[m] == before[m]);
        } else if k < p && m == p {
            assert(after[k] == before[k]);
        } else if k < p {
            assert(after[k] == before[k] && after[m] == before[m - 1]);
        } else if k == p {
            assert(after[m] == before[m - 1]);
        } else {
            assert(after[k] == before[k - 1] && after[m] == before[m - 1]);
        }
    }
    assert forall|v: usize| v < i + 1 implies #[trigger] after.contains(v) by {
        if v == i {
            assert(after[p] == i);
        } else {
            assert(before.contains(v));
            let w = choose|w: int| 0 <= w < before.len() && before[w] == v;
            if w < p {
                assert(after[w] == before[w]);
            } else {
                assert(after[w + 1] == before[w]);
            }
        }
    }
    assert forall|k: int, m: int| 0 <= k < m < after.len() implies dir_le(
        #[trigger] next[after[k] as int],
        #[trigger] next[after[m] as int],
        descending,
    ) by {
        if k < p && m < p {
            assert(after[k] == before[k] && after[m] == before[m]);
            assert(dir_le(prev[before[k] as int], prev[before[m] as int], descending));
        } else if k < p && m == p {
            assert(after[k] == before[k] && after[m] == i);
        } else if k < p {
            assert(after[k] == before[k] && after[m] == before[m - 1]);
            assert(dir_le(prev[before[k] as int], prev[before[m - 1] as int], descending));
        } else if k == p {
            assert(after[k] == i && after[m] == before[m - 1]);
            lemma_dir_total(kv[before[p] as int], kv[i as int], descending);
            if m - 1 > p {
                assert(dir_le(prev[before[p] as int], prev[before[m - 1] as int], descending));
                lemma_dir_trans(kv[i as int], kv[before[p] as int], kv[before[m - 1] as int], descending);
            }
        } else {
            assert(after[k] == before[k - 1] && after[m] == before[m - 1]);
            assert(dir_le(prev[before[k - 1] as int], prev[before[m - 1] as int], descending));
        }
    }
    assert forall|k: int, m: int|
        0 <= k < m < after.len() && dir_le(next[after[m] as int], next[after[k] as int], descending) implies #[trigger] after[k]
        < #[trigger] after[m] by {
        if k < p && m < p {
            assert(after[k] == before[k] && after[m] == before[m]);
        } else if k < p && m == p {
            assert(after[k] == before[k]);
        } else if k < p {
            assert(after[k] == before[k] && after[m] == before[m - 1]);
        } else if k == p {
            assert(after[m] == before[m - 1]);
            assert(after[k] == i);
            lemma_dir_total(kv[before[p] as int], kv[i as int], descending);
            if m - 1 > p {
                assert(dir_le(prev[before[p] as int], prev[before[m - 1] as int], descending));
            }
            if dir_le(kv[before[m - 1] as int], kv[i as int], descending) && m - 1 > p {
                lemma_dir_trans(kv[before[p] as int], kv[before[m - 1] as int], kv[i as int], descending);
            }
        } else {
            assert(after[k] == before[k - 1] && after[m] == before[m - 1]);
        }
    }
}

/// The indices of the keys in stable order, in the given direction.
pub fn stable_order(keys: &Vec<SortKey>, descending: bool) -> (o: Vec<usize>)
    ensures
        is_stable_order(keys_view(keys@), o@, descending),
{
    let ghost kv = keys_view(keys@);
    let mut o: Vec<usize> = Vec::new();
    let mut i: usize = 0;
    while i < keys.len()
        invariant
            i <= keys.len(),
            kv == keys_view(keys@),
            kv.len() == keys.len(),
            is_stable_order(kv.subrange(0, i as int), o@, descending),
            forall|k: int| 0 <= k < o.len() ==> o[k] < i,
        decreases keys.len() - i,
    {
        let ghost before = o@;
        assert(kv[i as int] == keys@[i as int]@);
        // the first position whose key comes strictly after the new key
        let mut p: usize = 0;
        while p < o.len() && key_before(&keys[o[p]], &keys[i], descending)
            invariant
                p <= o.len(),
                o@ == before,
                kv == keys_view(keys@),
                forall|k: int| 0 <= k < o.len() ==> o[k] < i,
                i < keys.len(),
                forall|k: int| 0 <= k < p ==> dir_le(kv[o[k] as int], kv[i as int], descending),
            decreases o.len() - p,
        {
            assert(kv[o[p as int] as int] == keys@[o[p as int] as int]@);
            p += 1;
        }
        proof {
            if p < o.len() {
                assert(kv[o[p as int] as int] == keys@[o[p as int] as int]@);
                assert(!dir_le(kv[o[p as int] as int], kv[i as int], descending));
            }
        }
        o.insert(p, i);
        proof {
            lemma_insert_keeps_order(kv, before, i, p as int, descending);
        }
        i += 1;
    }
    assert(kv.subrange(0, i as int) =~= kv);
    o
}

} // verus!
