//! Market snapshots, the state of a stock listing, and the short price history a
//! listing keeps.
use vstd::prelude::*;

verus! {

/// Where a stock, wish-list or riven listing stands.
#[derive(Clone, Copy, Debug, PartialEq, Eq, Structural)]
pub enum StockStatus {
    Pending,
    Live,
    ToLowProfit,
    NoSellers,
    NoBuyers,
    InActive,
    SMALimit,
}

/// The parts of a listing that the pricing workflows read and change.
#[derive(Clone, Copy, Debug, PartialEq, Eq, Structural)]
pub struct Listing {
    pub status: StockStatus,
    pub list_price: Option<i64>,
    pub locked: bool,
    pub is_hidden: bool,
}

/// One side of the live market for an item.
#[derive(Clone, Copy, Debug, PartialEq, Eq, Structural)]
pub struct ItemMarketInfo {
    pub lowest_price: i64,
    pub highest_price: i64,
    pub price_range: i64,
    pub volume: usize,
}

impl ItemMarketInfo {
    /// A snapshot from its parts.
    pub fn new(lowest_price: i64, highest_price: i64, price_range: i64, volume: usize) -> (res: ItemMarketInfo)
        ensures
            res == (ItemMarketInfo { lowest_price, highest_price, price_range, volume }),
    {
        ItemMarketInfo { lowest_price, highest_price, price_range, volume }
    }

    /// No orders: every figure zero.
    pub fn empty() -> (res: ItemMarketInfo)
        ensures
            res == (ItemMarketInfo { lowest_price: 0, highest_price: 0, price_range: 0, volume: 0 }),
    {
        ItemMarketInfo { lowest_price: 0, highest_price: 0, price_range: 0, volume: 0 }
    }
}

/// A price a listing was posted at, and when.
#[derive(Debug)]
pub struct PriceHistory {
    pub created_at: String,
    pub price: i64,
}

impl View for PriceHistory {
    type V = (Seq<char>, i64);

    open spec fn view(&self) -> (Seq<char>, i64) {
        (self.created_at@, self.price)
    }
}

/// The contents of a price history.
pub open spec fn history_view(h: Seq<PriceHistory>) -> Seq<(Seq<char>, i64)> {
    h.map_values(|p: PriceHistory| p@)
}

/// The most entries a price history keeps.
pub const HISTORY_LIMIT: usize = 5;

/// A history after recording `entry`: nothing changes when the last entry has the
/// same price; otherwise the oldest entry goes once the limit is reached and the
/// entry is appended.
pub open spec fn history_after(h: Seq<(Seq<char>, i64)>, entry: (Seq<char>, i64)) -> Seq<(Seq<char>, i64)> {
    if h.len() > 0 && h.last().1 == entry.1 {
        h
    } else if h.len() >= HISTORY_LIMIT {
        h.drop_first().push(entry)
    } else {
        h.push(entry)
    }
}

/// No two neighbouring entries have the same price.
pub open spec fn no_repeats(h: Seq<(Seq<char>, i64)>) -> bool {
    forall|i: int| 0 <= i < h.len() - 1 ==> #[trigger] h[i].1 != h[i + 1].1
}

impl PriceHistory {
    /// An entry.
    pub fn new(created_at: &str, price: i64) -> (res: PriceHistory)
        ensures
            res@ == (created_at@, price),
    {
        PriceHistory { created_at: created_at.to_owned(), price }
    }

    /// A copy with the same contents.
    pub fn duplicate(&self) -> (res: PriceHistory)
        ensures
            res@ == self@,
    {
        PriceHistory { created_at: self.created_at.clone(), price: self.price }
    }
}

/// Records `entry` in `history` (see `history_after`); returns whether it changed.
pub fn add_price_history(history: &mut Vec<PriceHistory>, entry: PriceHistory) -> (changed: bool)
    ensures
        history_view(final(history)@) == history_after(history_view(old(history)@), entry@),
        changed == (history_view(final(history)@) != history_view(old(history)@)),
{
    let ghost old_h = history_view(history@);
    let ghost ev = entry@;
    let n = history.len();
    if n > 0 && history[n - 1].price == entry.price {
        assert(old_h.last() == history@[n - 1]@);
        return false;
    }
    if n >= HISTORY_LIMIT {
        history.remove(0);
        assert(history_view(history@) =~= old_h.drop_first());
    }
    let ghost mid = history_view(history@);
    history.push(entry);
    assert(history_view(history@) =~= mid.push(ev));
    assert(history_view(history@).len() == mid.len() + 1);
    proof {
        if n > 0 {
            assert(old_h.last().1 != ev.1);
            assert(history_view(history@).last() == ev);
            assert(history_view(history@) != old_h);
        } else {
            assert(history_view(history@).len() != old_h.len());
        }
    }
    true
}

/// A history holds at most five entries once it has started within the limit.
pub proof fn lemma_history_bounded(h: Seq<(Seq<char>, i64)>, entry: (Seq<char>, i64))
    requires
        h.len() <= HISTORY_LIMIT,
    ensures
        history_after(h, entry).len() <= HISTORY_LIMIT,
{
}

/// Recording the same price twice in a row is the same as recording it once.
pub proof fn lemma_history_repeat(h: Seq<(Seq<char>, i64)>, entry: (Seq<char>, i64), again: (Seq<char>, i64))
    requires
        again.1 == entry.1,
    ensures
        history_after(history_after(h, entry), again) == history_after(h, entry),
{
}

/// Recording keeps neighbouring entries apart in price, and the newest entry
/// always carries the recorded price.
pub proof fn lemma_history_no_repeats(h: Seq<(Seq<char>, i64)>, entry: (Seq<char>, i64))
    requires
        no_repeats(h),
    ensures
        no_repeats(history_after(h, entry)),
        history_after(h, entry).last().1 == entry.1,
{
    let r = history_after(h, entry);
    if h.len() > 0 && h.last().1 == entry.1 {
    } else if h.len() >= HISTORY_LIMIT {
        let d = h.drop_first();
        assert forall|i: int| 0 <= i < r.len() - 1 implies #[trigger] r[i].1 != r[i + 1].1 by {
            if i < d.len() - 1 {
                assert(r[i] == h[i + 1]);
                assert(r[i + 1] == h[i + 2]);
            } else {
                assert(r[i] == h.last());
            }
        }
    } else {
        assert forall|i: int| 0 <= i < r.len() - 1 implies #[trigger] r[i].1 != r[i + 1].1 by {
            if i < h.len() - 1 {
                assert(r[i] == h[i]);
                assert(r[i + 1] == h[i + 1]);
            } else {
                assert(r[i] == h.last());
            }
        }
    }
}

} // verus!
