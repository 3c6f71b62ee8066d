//! The budget selection of buy orders: a 0/1 knapsack over whole platinum
//! amounts, solved by the usual table of best values.
use vstd::prelude::*;

verus! {

/// The best total value using the first `i` items within capacity `w`, as the
/// table computes it: nothing fits a capacity of 0 or less; an item is taken
/// when it fits and taking it is strictly better.
pub open spec fn best(ws: Seq<i64>, vs: Seq<i64>, i: nat, w: int) -> int
    decreases i,
{
    if i == 0 || w <= 0 {
        0
    } else {
        let without = best(ws, vs, (i - 1) as nat, w);
        if ws[i - 1] <= w {
            let with = best(ws, vs, (i - 1) as nat, w - ws[i - 1]) + vs[i - 1];
            if with > without {
                with
            } else {
                without
            }
        } else {
            without
        }
    }
}

/// The items taken, read back from the table from the last item down: an item
/// is taken when it changes the best value.
pub open spec fn picks(ws: Seq<i64>, vs: Seq<i64>, i: nat, w: int) -> Seq<bool>
    decreases i,
{
    if i == 0 {
        Seq::empty()
    } else if best(ws, vs, i, w) != best(ws, vs, (i - 1) as nat, w) {
        picks(ws, vs, (i - 1) as nat, w - ws[i - 1]).push(true)
    } else {
        picks(ws, vs, (i - 1) as nat, w).push(false)
    }
}

/// The total of `xs` over the chosen positions.
pub open spec fn chosen_sum(xs: Seq<i64>, chosen: Seq<bool>) -> int
    decreases chosen.len(),
{
    if chosen.len() == 0 {
        0
    } else {
        chosen_sum(xs, chosen.drop_last()) + if chosen.last() {
            xs[chosen.len() - 1] as int
        } else {
            0
        }
    }
}

/// The total of the positive values.
pub open spec fn positive_sum(vs: Seq<i64>) -> int
    decreases vs.len(),
{
    if vs.len() == 0 {
        0
    } else {
        positive_sum(vs.drop_last()) + if vs.last() > 0 {
            vs.last() as int
        } else {
            0
        }
    }
}

proof fn lemma_best_bounds(ws: Seq<i64>, vs: Seq<i64>, i: nat, w: int)
    requires
        i <= vs.len(),
        i <= ws.len(),
    ensures
        0 <= best(ws, vs, i, w) <= positive_sum(vs.subrange(0, i as int)),
    decreases i,
{
    if i > 0 && w > 0 {
        lemma_best_bounds(ws, vs, (i - 1) as nat, w);
        lemma_best_bounds(ws, vs, (i - 1) as nat, w - ws[i - 1]);
        assert(vs.subrange(0, i as int).drop_last() =~= vs.subrange(0, i - 1));
    } else if i > 0 {
        lemma_best_bounds(ws, vs, (i - 1) as nat, w);
        assert(vs.subrange(0, i as int).drop_last() =~= vs.subrange(0, i - 1));
    }
}

proof fn lemma_positive_prefix(vs: Seq<i64>, i: int)
    requires
        0 <= i <= vs.len(),
    ensures
        positive_sum(vs.subrange(0, i)) <= positive_sum(vs),
    decreases vs.len() - i,
{
    if i < vs.len() {
        lemma_positive_prefix(vs, i + 1);
        assert(vs.subrange(0, i + 1).drop_last() =~= vs.subrange(0, i));
    } else {
        assert(vs.subrange(0, i) =~= vs);
    }
}

/// The read-back picks have the table's best value and fit the capacity.
pub proof fn lemma_picks_value(ws: Seq<i64>, vs: Seq<i64>, i: nat, w: int)
    requires
        i <= ws.len(),
        i <= vs.len(),
    ensures
        picks(ws, vs, i, w).len() == i,
        chosen_sum(vs, picks(ws, vs, i, w)) == best(ws, vs, i, w),
        w >= 0 ==> chosen_sum(ws, picks(ws, vs, i, w)) <= w,
        w < 0 ==> chosen_sum(ws, picks(ws, vs, i, w)) == 0,
    decreases i,
{
    if i > 0 {
        let p = picks(ws, vs, i, w);
        if best(ws, vs, i, w) != best(ws, vs, (i - 1) as nat, w) {
            lemma_picks_value(ws, vs, (i - 1) as nat, w - ws[i - 1]);
            assert(p.drop_last() == picks(ws, vs, (i - 1) as nat, w - ws[i - 1]));
        } else {
            lemma_picks_value(ws, vs, (i - 1) as nat, w);
            assert(p.drop_last() == picks(ws, vs, (i - 1) as nat, w));
        }
    }
}

/// With every weight at least 1, no choice of the first `i` items that fits
/// capacity `w` is worth more than the table's best value.
pub proof fn lemma_best_is_optimal(ws: Seq<i64>, vs: Seq<i64>, i: nat, w: int, chosen: Seq<bool>)
    requires
        i <= ws.len(),
        i <= vs.len(),
        chosen.len() == i,
        forall|k: int| 0 <= k < ws.len() ==> ws[k] >= 1,
        chosen_sum(ws, chosen) <= w,
    ensures
        chosen_sum(vs, chosen) <= best(ws, vs, i, w),
    decreases i,
{
    if i > 0 {
        let rest = chosen.drop_last();
        lemma_weights_nonneg(ws, rest);
        if chosen.last() {
            lemma_best_is_optimal(ws, vs, (i - 1) as nat, w - ws[i - 1], rest);
        } else {
            lemma_best_is_optimal(ws, vs, (i - 1) as nat, w, rest);
        }
        if w <= 0 {
            lemma_empty_when_no_room(ws, vs, chosen, w);
        }
    }
}

proof fn lemma_weights_nonneg(ws: Seq<i64>, chosen: Seq<bool>)
    requires
        chosen.len() <= ws.len(),
        forall|k: int| 0 <= k < ws.len() ==> ws[k] >= 1,
    ensures
        chosen_sum(ws, chosen) >= 0,
        chosen_sum(ws, chosen) == 0 ==> forall|k: int| 0 <= k < chosen.len() ==> !chosen[k],
    decreases chosen.len(),
{
    if chosen.len() > 0 {
        lemma_weights_nonneg(ws, chosen.drop_last());
        assert forall|k: int| 0 <= k < chosen.len() && chosen_sum(ws, chosen) == 0 implies !chosen[k] by {
            if k < chosen.len() - 1 {
                assert(chosen[k] == chosen.drop_last()[k]);
            }
        }
    }
}

proof fn lemma_empty_when_no_room(ws: Seq<i64>, vs: Seq<i64>, chosen: Seq<bool>, w: int)
    requires
        chosen.len() <= ws.len(),
        chosen.len() <= vs.len(),
        forall|k: int| 0 <= k < ws.len() ==> ws[k] >= 1,
        chosen_sum(ws, chosen) <= w,
        w <= 0,
    ensures
        chosen_sum(vs, chosen) == 0,
    decreases chosen.len(),
{
    lemma_weights_nonneg(ws, chosen);
    if chosen.len() > 0 {
        lemma_weights_nonneg(ws, chosen.drop_last());
        assert(!chosen[chosen.len() - 1]);
        lemma_empty_when_no_room(ws, vs, chosen.drop_last(), w);
    }
}

/// The positions that are (or are not) picked, from the last down.
pub open spec fn picked_desc(chosen: Seq<bool>, taken: bool) -> Seq<usize>
    decreases chosen.len(),
{
    if chosen.len() == 0 {
        Seq::empty()
    } else if chosen.last() == taken {
        seq![(chosen.len() - 1) as usize] + picked_desc(chosen.drop_last(), taken)
    } else {
        picked_desc(chosen.drop_last(), taken)
    }
}

/// The best total value of items of the given weights and values within
/// `max_weight` (see `best`), and the positions of the items taken and of those
/// left, each from the last position down (see `picks`).
pub fn knapsack(weights: &Vec<i64>, values: &Vec<i64>, max_weight: i64) -> (res: (i64, Vec<usize>, Vec<usize>))
    requires
        weights.len() == values.len(),
        0 <= max_weight,
        max_weight < usize::MAX,
        forall|k: int| 0 <= k < weights.len() ==> weights[k] >= 0,
        positive_sum(values@) <= i64::MAX,
    ensures
        res.0 == best(weights@, values@, weights.len() as nat, max_weight as int),
        res.1@ == picked_desc(picks(weights@, values@, weights.len() as nat, max_weight as int), true),
        res.2@ == picked_desc(picks(weights@, values@, weights.len() as nat, max_weight as int), false),
{
    let n = weights.len();
    let cap = max_weight as usize;
    let ghost ws = weights@;
    let ghost vs = values@;
    let mut dp: Vec<Vec<i64>> = Vec::new();
    let mut row0: Vec<i64> = Vec::new();
    let mut w: usize = 0;
    while w <= cap
        invariant
            w <= cap + 1,
            cap < usize::MAX,
            row0.len() == w,
            forall|k: int| 0 <= k < w ==> row0[k] == 0,
        decreases cap + 1 - w,
    {
        row0.push(0);
        w += 1;
    }
    dp.push(row0);
    let mut i: usize = 0;
    while i < n
        invariant
            0 <= i <= n,
            n == weights.len(),
            n == values.len(),
            ws == weights@,
            vs == values@,
            cap == max_weight,
            cap < usize::MAX,
            dp.len() == i + 1,
            forall|r: int| 0 <= r <= i ==> (#[trigger] dp[r]).len() == cap + 1,
            forall|r: int, c: int| 0 <= r <= i && 0 <= c <= cap ==> #[trigger] dp[r][c] == best(ws, vs, r as nat, c),
            forall|k: int| 0 <= k < weights.len() ==> weights[k] >= 0,
            positive_sum(values@) <= i64::MAX,
        decreases n - i,
    {
        let wt = weights[i];
        let v = values[i];
        let mut row: Vec<i64> = Vec::new();
        row.push(0);
        let mut c: usize = 1;
        while c <= cap
            invariant
                1 <= c <= cap + 1,
                0 <= i < n,
                n == weights.len(),
                n == values.len(),
                ws == weights@,
                vs == values@,
                cap == max_weight,
                cap < usize::MAX,
                wt == ws[i as int],
                v == vs[i as int],
                wt >= 0,
                dp.len() == i + 1,
                forall|r: int| 0 <= r <= i ==> (#[trigger] dp[r]).len() == cap + 1,
                forall|r: int, cc: int| 0 <= r <= i && 0 <= cc <= cap ==> #[trigger] dp[r][cc] == best(ws, vs, r as nat, cc),
                row.len() == c,
                forall|cc: int| 0 <= cc < c ==> #[trigger] row[cc] == best(ws, vs, (i + 1) as nat, cc),
                positive_sum(values@) <= i64::MAX,
            decreases cap + 1 - c,
        {
            let without = dp[i][c];
            let cell = if wt <= c as i64 {
                let back = (c as i64 - wt) as usize;
                let prev = dp[i][back];
                proof {
                    lemma_best_bounds(ws, vs, i as nat, back as int);
                    assert(vs.subrange(0, i + 1).drop_last() =~= vs.subrange(0, i as int));
                    lemma_positive_prefix(vs, i + 1);
                }
                let with = prev + v;
                if with > without {
                    with
                } else {
                    without
                }
            } else {
                without
            };
            row.push(cell);
            c += 1;
        }
        dp.push(row);
        i += 1;
    }
    let mut selected: Vec<usize> = Vec::new();
    let mut unselected: Vec<usize> = Vec::new();
    let mut rem: usize = cap;
    let mut k: usize = n;
    while k > 0
        invariant
            k <= n,
            n == weights.len(),
            n == values.len(),
            ws == weights@,
            vs == values@,
            dp.len() == n + 1,
            forall|r: int| 0 <= r <= n ==> (#[trigger] dp[r]).len() == cap + 1,
            forall|r: int, cc: int| 0 <= r <= n && 0 <= cc <= cap ==> #[trigger] dp[r][cc] == best(ws, vs, r as nat, cc),
            rem <= cap,
            cap == max_weight,
            forall|q: int| 0 <= q < weights.len() ==> weights[q] >= 0,
            picked_desc(picks(ws, vs, n as nat, cap as int), true) == selected@ + picked_desc(picks(ws, vs, k as nat, rem as int), true),
            picked_desc(picks(ws, vs, n as nat, cap as int), false) == unselected@ + picked_desc(picks(ws, vs, k as nat, rem as int), false),
        decreases k,
    {
        let ghost p = picks(ws, vs, k as nat, rem as int);
        if dp[k][rem] != dp[k - 1][rem] {
            proof {
                assert(p.drop_last() == picks(ws, vs, (k - 1) as nat, rem - ws[k - 1]));
                assert(p.len() == k) by {
                    lemma_picks_value(ws, vs, k as nat, rem as int);
                }
            }
            assert(weights[k as int - 1] <= rem);
            let ghost before = selected@;
            selected.push(k - 1);
            let back = (rem as i64 - weights[k - 1]) as usize;
            proof {
                assert(picked_desc(p, true) =~= seq![(k - 1) as usize] + picked_desc(p.drop_last(), true));
                assert(picked_desc(p, false) =~= picked_desc(p.drop_last(), false));
                assert(selected@ + picked_desc(p.drop_last(), true) =~= before + picked_desc(p, true));
            }
            rem = back;
        } else {
            proof {
                assert(p.drop_last() == picks(ws, vs, (k - 1) as nat, rem as int));
                assert(p.len() == k) by {
                    lemma_picks_value(ws, vs, k as nat, rem as int);
                }
            }
            let ghost before = unselected@;
            unselected.push(k - 1);
            proof {
                assert(picked_desc(p, false) =~= seq![(k - 1) as usize] + picked_desc(p.drop_last(), false));
                assert(picked_desc(p, true) =~= picked_desc(p.drop_last(), true));
                assert(unselected@ + picked_desc(p.drop_last(), false) =~= before + picked_desc(p, false));
            }
        }
        k -= 1;
    }
    assert(selected@ =~= selected@ + Seq::<usize>::empty());
    assert(unselected@ =~= unselected@ + Seq::<usize>::empty());
    (dp[n][cap], selected, unselected)
}

/// With every weight at least 1, the read-back picks fit the capacity, are worth
/// the best value, and no choice that fits is worth more.
pub proof fn lemma_knapsack_optimal(ws: Seq<i64>, vs: Seq<i64>, max_weight: int, chosen: Seq<bool>)
    requires
        ws.len() == vs.len(),
        max_weight >= 0,
        forall|k: int| 0 <= k < ws.len() ==> ws[k] >= 1,
        chosen.len() == ws.len(),
        chosen_sum(ws, chosen) <= max_weight,
    ensures
        chosen_sum(ws, picks(ws, vs, ws.len() as nat, max_weight)) <= max_weight,
        chosen_sum(vs, picks(ws, vs, ws.len() as nat, max_weight)) == best(ws, vs, ws.len() as nat, max_weight),
        chosen_sum(vs, chosen) <= best(ws, vs, ws.len() as nat, max_weight),
{
    lemma_picks_value(ws, vs, ws.len() as nat, max_weight);
    lemma_best_is_optimal(ws, vs, ws.len() as nat, max_weight, chosen);
}


/// The positions listed as taken and as left: together as many as there are
/// choices, each list strictly decreasing, every listed position in range and
/// chosen (or not) as its list says, and every position listed in the list of
/// its own choice.
pub proof fn lemma_picked_partition(chosen: Seq<bool>)
    requires
        chosen.len() <= usize::MAX,
    ensures
        picked_desc(chosen, true).len() + picked_desc(chosen, false).len() == chosen.len(),
        forall|t: bool, i: int|
            0 <= i < picked_desc(chosen, t).len() ==> {
                let k = #[trigger] picked_desc(chosen, t)[i];
                k < chosen.len() && chosen[k as int] == t
            },
        forall|t: bool, i: int, j: int|
            0 <= i < j < picked_desc(chosen, t).len() ==> #[trigger] picked_desc(chosen, t)[i]
                > #[trigger] picked_desc(chosen, t)[j],
        forall|k: int| 0 <= k < chosen.len() ==> #[trigger] picked_desc(chosen, chosen[k]).contains(k as usize),
    decreases chosen.len(),
{
    if chosen.len() > 0 {
        let rest = chosen.drop_last();
        let n = chosen.len() - 1;
        lemma_picked_partition(rest);
        let last = chosen.last();
        assert(picked_desc(chosen, last) == seq![n as usize] + picked_desc(rest, last));
        assert(picked_desc(chosen, !last) == picked_desc(rest, !last));
        assert forall|t: bool, i: int| 0 <= i < picked_desc(chosen, t).len() implies {
            let k = #[trigger] picked_desc(chosen, t)[i];
            k < chosen.len() && chosen[k as int] == t
        } by {
            if last == t {
                if i > 0 {
                    let k = picked_desc(rest, t)[i - 1];
                    assert(picked_desc(chosen, t)[i] == k);
                    assert(rest[k as int] == chosen[k as int]);
                }
            } else {
                let k = picked_desc(rest, t)[i];
                assert(rest[k as int] == chosen[k as int]);
            }
        }
        assert forall|t: bool, i: int, j: int| 0 <= i < j < picked_desc(chosen, t).len() implies #[trigger] picked_desc(
            chosen,
            t,
        )[i] > #[trigger] picked_desc(chosen, t)[j] by {
            if last == t {
                if i == 0 {
                    let k = picked_desc(rest, t)[j - 1];
                    assert(picked_desc(chosen, t)[j] == k);
                    assert(k < rest.len());
                } else {
                    assert(picked_desc(chosen, t)[i] == picked_desc(rest, t)[i - 1]);
                    assert(picked_desc(chosen, t)[j] == picked_desc(rest, t)[j - 1]);
                }
            }
        }
        assert forall|k: int| 0 <= k < chosen.len() implies #[trigger] picked_desc(chosen, chosen[k]).contains(
            k as usize,
        ) by {
            let t = chosen[k];
            if k == n {
                assert(picked_desc(chosen, t)[0] == n as usize);
            } else {
                assert(rest[k] == t);
                assert(picked_desc(rest, t).contains(k as usize));
                let j = choose|j: int| 0 <= j < picked_desc(rest, t).len() && picked_desc(rest, t)[j] == k as usize;
                if last == t {
                    assert(picked_desc(chosen, t)[j + 1] == k as usize);
                } else {
                    assert(picked_desc(chosen, t)[j] == k as usize);
                }
            }
        }
    }
}

/// The knapsack's taken and left positions together list every item position
/// exactly once: the taken ones are those whose item is chosen, the left ones
/// the others, each list from the last position down.
pub proof fn lemma_knapsack_partition(ws: Seq<i64>, vs: Seq<i64>, max_weight: int)
    requires
        ws.len() == vs.len(),
        ws.len() <= usize::MAX,
    ensures
        ({
            let c = picks(ws, vs, ws.len() as nat, max_weight);
            let taken = picked_desc(c, true);
            let left = picked_desc(c, false);
            &&& taken.len() + left.len() == ws.len()
            &&& forall|k: usize|
                #![trigger taken.contains(k)]
                #![trigger left.contains(k)]
                k < ws.len() ==> (taken.contains(k) || left.contains(k))
            &&& forall|k: usize|
                #![trigger taken.contains(k)]
                #![trigger left.contains(k)]
                k < ws.len() ==> !(taken.contains(k) && left.contains(k))
            &&& forall|i: int, j: int| 0 <= i < j < taken.len() ==> taken[i] > taken[j]
            &&& forall|i: int, j: int| 0 <= i < j < left.len() ==> left[i] > left[j]
            &&& forall|i: int| 0 <= i < taken.len() ==> taken[i] < ws.len()
            &&& forall|i: int| 0 <= i < left.len() ==> left[i] < ws.len()
        }),
{
    let c = picks(ws, vs, ws.len() as nat, max_weight);
    lemma_picks_value(ws, vs, ws.len() as nat, max_weight);
    lemma_picked_partition(c);
    let taken = picked_desc(c, true);
    let left = picked_desc(c, false);
    assert forall|k: usize| k < ws.len() implies (taken.contains(k) || left.contains(k)) by {
        assert(picked_desc(c, c[k as int]).contains((k as int) as usize));
    }
    assert forall|k: usize| k < ws.len() implies !(taken.contains(k) && left.contains(k)) by {
        if taken.contains(k) && left.contains(k) {
            let i = choose|i: int| 0 <= i < taken.len() && taken[i] == k;
            let j = choose|j: int| 0 <= j < left.len() && left[j] == k;
            assert(c[taken[i] as int] == true);
            assert(c[left[j] as int] == false);
        }
    }
    assert forall|i: int, j: int| 0 <= i < j < taken.len() implies taken[i] > taken[j] by {
        assert(picked_desc(c, true)[i] > picked_desc(c, true)[j]);
    }
    assert forall|i: int, j: int| 0 <= i < j < left.len() implies left[i] > left[j] by {
        assert(picked_desc(c, false)[i] > picked_desc(c, false)[j]);
    }
    assert forall|i: int| 0 <= i < taken.len() implies taken[i] < ws.len() by {
        assert(picked_desc(c, true)[i] < c.len());
    }
    assert forall|i: int| 0 <= i < left.len() implies left[i] < ws.len() by {
        assert(picked_desc(c, false)[i] < c.len());
    }
}
} // verus!
