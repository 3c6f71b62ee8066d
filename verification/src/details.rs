//! The market figures kept with a stock item, an order, an auction or a traded
//! item, and how changes to them are recorded.
use vstd::prelude::*;
use crate::market::{PriceHistory, add_price_history, history_after, history_view};
use crate::trade::strings_view;

verus! {

/// Market figures of a stock item.
#[derive(Debug)]
pub struct StockItemDetails {
    pub total_sellers: Option<i64>,
    pub profit: Option<i64>,
    pub lowest_price: Option<i64>,
    pub highest_price: Option<i64>,
    pub moving_avg: Option<i64>,
}

impl StockItemDetails {
    /// Figures from their parts.
    pub fn new(
        total_sellers: Option<i64>,
        profit: Option<i64>,
        lowest_price: Option<i64>,
        moving_avg: Option<i64>,
        highest_price: Option<i64>,
    ) -> (res: StockItemDetails)
        ensures
            res.total_sellers == total_sellers,
            res.profit == profit,
            res.lowest_price == lowest_price,
            res.moving_avg == moving_avg,
            res.highest_price == highest_price,
    {
        StockItemDetails { total_sellers, profit, lowest_price, moving_avg, highest_price }
    }
}

/// Market figures of an order, with whether they changed since last saved and
/// the names of what changed.
#[derive(Debug)]
pub struct OrderDetails {
    pub total_buyers: Option<i64>,
    pub total_sellers: Option<i64>,
    pub range: Option<i64>,
    pub lowest_price: Option<i64>,
    pub highest_price: Option<i64>,
    pub price_history: Vec<PriceHistory>,
    pub moving_avg: Option<i64>,
    pub tags: Vec<String>,
    pub is_dirty: bool,
    pub changes: Vec<String>,
}

/// The contents of an order's figures.
pub struct OrderDetailsView {
    pub total_buyers: Option<i64>,
    pub total_sellers: Option<i64>,
    pub range: Option<i64>,
    pub lowest_price: Option<i64>,
    pub highest_price: Option<i64>,
    pub price_history: Seq<(Seq<char>, i64)>,
    pub moving_avg: Option<i64>,
    pub tags: Seq<Seq<char>>,
    pub is_dirty: bool,
    pub changes: Seq<Seq<char>>,
}

impl View for OrderDetails {
    type V = OrderDetailsView;

    open spec fn view(&self) -> OrderDetailsView {
        OrderDetailsView {
            total_buyers: self.total_buyers,
            total_sellers: self.total_sellers,
            range: self.range,
            lowest_price: self.lowest_price,
            highest_price: self.highest_price,
            price_history: history_view(self.price_history@),
            moving_avg: self.moving_avg,
            tags: strings_view(self.tags@),
            is_dirty: self.is_dirty,
            changes: strings_view(self.changes@),
        }
    }
}

/// A figure set to `new` changes.
pub open spec fn differs(cur: Option<i64>, new: i64) -> bool {
    cur != Some(new)
}

/// The change names after setting a figure named `name`.
pub open spec fn changes_after(changes: Seq<Seq<char>>, changed: bool, name: Seq<char>) -> Seq<Seq<char>> {
    if changed {
        changes.push(name)
    } else {
        changes
    }
}

fn set_if_changed(current: &mut Option<i64>, new_value: i64, is_dirty: &mut bool) -> (changed: bool)
    ensures
        changed == differs(*old(current), new_value),
        *final(current) == Some(new_value),
        *final(is_dirty) == (*old(is_dirty) || changed),
{
    if *current != Some(new_value) {
        *current = Some(new_value);
        *is_dirty = true;
        return true;
    }
    false
}

fn push_change(changes: &mut Vec<String>, name: &str)
    ensures
        strings_view(final(changes)@) == strings_view(old(changes)@).push(name@),
{
    let ghost before = strings_view(changes@);
    changes.push(name.to_owned());
    assert(strings_view(changes@) =~= before.push(name@));
}

impl OrderDetails {
    /// No figures, no history, to be saved.
    pub fn new() -> (res: OrderDetails)
        ensures
            res.is_dirty,
            res.total_buyers is None && res.total_sellers is None && res.range is None,
            res.lowest_price is None && res.highest_price is None && res.moving_avg is None,
            res.price_history@.len() == 0 && res.tags@.len() == 0 && res.changes@.len() == 0,
    {
        OrderDetails {
            total_buyers: None,
            total_sellers: None,
            range: None,
            lowest_price: None,
            highest_price: None,
            price_history: Vec::new(),
            moving_avg: None,
            tags: Vec::new(),
            is_dirty: true,
            changes: Vec::new(),
        }
    }

    /// Marks the figures as saved.
    pub fn reset_changes(&mut self)
        ensures
            final(self)@ == (OrderDetailsView { is_dirty: false, changes: Seq::empty(), ..old(self)@ }),
    {
        self.changes = Vec::new();
        self.is_dirty = false;
        assert(strings_view(self.changes@) =~= Seq::<Seq<char>>::empty());
    }

    /// Sets the number of buyers (changes are not recorded).
    pub fn set_total_buyers(&mut self, total_buyers: i64)
        ensures
            final(self)@ == (OrderDetailsView { total_buyers: Some(total_buyers), ..old(self)@ }),
    {
        self.total_buyers = Some(total_buyers);
    }

    /// Sets the number of sellers (changes are not recorded).
    pub fn set_total_sellers(&mut self, total_sellers: i64)
        ensures
            final(self)@ == (OrderDetailsView { total_sellers: Some(total_sellers), ..old(self)@ }),
    {
        self.total_sellers = Some(total_sellers);
    }

    /// Sets the moving average (changes are not recorded).
    pub fn set_moving_avg(&mut self, moving_avg: i64)
        ensures
            final(self)@ == (OrderDetailsView { moving_avg: Some(moving_avg), ..old(self)@ }),
    {
        self.moving_avg = Some(moving_avg);
    }

    /// Sets the lowest price; a change marks the figures and records
    /// "lowest_price".
    pub fn set_lowest_price(&mut self, lowest_price: i64)
        ensures
            final(self)@ == (OrderDetailsView {
                lowest_price: Some(lowest_price),
                is_dirty: old(self).is_dirty || differs(old(self).lowest_price, lowest_price),
                changes: changes_after(strings_view(old(self).changes@), differs(old(self).lowest_price, lowest_price), "lowest_price"@),
                ..old(self)@
            }),
    {
        if set_if_changed(&mut self.lowest_price, lowest_price, &mut self.is_dirty) {
            push_change(&mut self.changes, "lowest_price");
        }
    }

    /// Sets the highest price; a change marks the figures and records
    /// "highest_price".
    pub fn set_highest_price(&mut self, highest_price: i64)
        ensures
            final(self)@ == (OrderDetailsView {
                highest_price: Some(highest_price),
                is_dirty: old(self).is_dirty || differs(old(self).highest_price, highest_price),
                changes: changes_after(strings_view(old(self).changes@), differs(old(self).highest_price, highest_price), "highest_price"@),
                ..old(self)@
            }),
    {
        if set_if_changed(&mut self.highest_price, highest_price, &mut self.is_dirty) {
            push_change(&mut self.changes, "highest_price");
        }
    }

    /// Sets the price range; a change marks the figures and records "range".
    pub fn set_range(&mut self, range: i64)
        ensures
            final(self)@ == (OrderDetailsView {
                range: Some(range),
                is_dirty: old(self).is_dirty || differs(old(self).range, range),
                changes: changes_after(strings_view(old(self).changes@), differs(old(self).range, range), "range"@),
                ..old(self)@
            }),
    {
        if set_if_changed(&mut self.range, range, &mut self.is_dirty) {
            push_change(&mut self.changes, "range");
        }
    }

    /// Records a price (see `history_after`); a change marks the figures and
    /// records "price_history".
    pub fn add_price_history(&mut self, entry: PriceHistory)
        ensures
            ({
                let h = history_after(old(self)@.price_history, entry@);
                final(self)@ == (OrderDetailsView {
                    price_history: h,
                    is_dirty: old(self).is_dirty || h != old(self)@.price_history,
                    changes: changes_after(old(self)@.changes, h != old(self)@.price_history, "price_history"@),
                    ..old(self)@
                })
            }),
    {
        if add_price_history(&mut self.price_history, entry) {
            self.is_dirty = true;
            push_change(&mut self.changes, "price_history");
        }
    }
}

/// Market figures of a riven auction, with whether they changed since last
/// saved and the name of the last change.
#[derive(Debug)]
pub struct AuctionDetails {
    pub total_buyers: Option<i64>,
    pub total_sellers: Option<i64>,
    pub profit: Option<i64>,
    pub lowest_price: Option<i64>,
    pub highest_price: Option<i64>,
    pub price_history: Vec<PriceHistory>,
    pub is_dirty: bool,
    pub changes: Option<String>,
}

impl AuctionDetails {
    /// Figures from their parts, to be saved.
    pub fn new(
        total_buyers: i64,
        total_sellers: i64,
        profit: i64,
        lowest_price: i64,
        highest_price: i64,
        price_history: Vec<PriceHistory>,
    ) -> (res: AuctionDetails)
        ensures
            res.total_buyers == Some(total_buyers),
            res.total_sellers == Some(total_sellers),
            res.profit == Some(profit),
            res.lowest_price == Some(lowest_price),
            res.highest_price == Some(highest_price),
            history_view(res.price_history@) == history_view(price_history@),
            res.is_dirty,
            res.changes is None,
    {
        AuctionDetails {
            total_buyers: Some(total_buyers),
            total_sellers: Some(total_sellers),
            profit: Some(profit),
            lowest_price: Some(lowest_price),
            highest_price: Some(highest_price),
            price_history,
            is_dirty: true,
            changes: None,
        }
    }

    /// No figures, no history, to be saved.
    pub fn empty() -> (res: AuctionDetails)
        ensures
            res.total_buyers is None && res.total_sellers is None && res.profit is None,
            res.lowest_price is None && res.highest_price is None,
            res.price_history@.len() == 0,
            res.is_dirty,
            res.changes is None,
    {
        AuctionDetails {
            total_buyers: None,
            total_sellers: None,
            profit: None,
            lowest_price: None,
            highest_price: None,
            price_history: Vec::new(),
            is_dirty: true,
            changes: None,
        }
    }

    /// Sets the lowest price; a change marks the figures and names "lowest_price"
    /// as the last change.
    pub fn set_lowest_price(&mut self, lowest_price: i64)
        ensures
            final(self).lowest_price == Some(lowest_price),
            final(self).is_dirty == (old(self).is_dirty || differs(old(self).lowest_price, lowest_price)),
            crate::trade::opt_str_view(final(self).changes) == if differs(old(self).lowest_price, lowest_price) {
                Some("lowest_price"@)
            } else {
                crate::trade::opt_str_view(old(self).changes)
            },
    {
        if set_if_changed(&mut self.lowest_price, lowest_price, &mut self.is_dirty) {
            self.changes = Some("lowest_price".to_owned());
        }
    }

    /// Sets the highest price; a change marks the figures and names
    /// "highest_price" as the last change.
    pub fn set_highest_price(&mut self, highest_price: i64)
        ensures
            final(self).highest_price == Some(highest_price),
            final(self).is_dirty == (old(self).is_dirty || differs(old(self).highest_price, highest_price)),
            crate::trade::opt_str_view(final(self).changes) == if differs(old(self).highest_price, highest_price) {
                Some("highest_price"@)
            } else {
                crate::trade::opt_str_view(old(self).changes)
            },
    {
        if set_if_changed(&mut self.highest_price, highest_price, &mut self.is_dirty) {
            self.changes = Some("highest_price".to_owned());
        }
    }

    /// Sets the profit; a change marks the figures and names "profit" as the last
    /// change.
    pub fn set_profit(&mut self, profit: i64)
        ensures
            final(self).profit == Some(profit),
            final(self).is_dirty == (old(self).is_dirty || differs(old(self).profit, profit)),
            crate::trade::opt_str_view(final(self).changes) == if differs(old(self).profit, profit) {
                Some("profit"@)
            } else {
                crate::trade::opt_str_view(old(self).changes)
            },
    {
        if set_if_changed(&mut self.profit, profit, &mut self.is_dirty) {
            self.changes = Some("profit".to_owned());
        }
    }

    /// Sets the number of sellers (changes are not recorded).
    pub fn set_total_sellers(&mut self, total_sellers: i64)
        ensures
            final(self).total_sellers == Some(total_sellers),
            final(self).is_dirty == old(self).is_dirty,
    {
        self.total_sellers = Some(total_sellers);
    }

    /// Records a price (see `history_after`); a change marks the figures and names
    /// "price_history" as the last change.
    pub fn add_price_history(&mut self, entry: PriceHistory)
        ensures
            history_view(final(self).price_history@) == history_after(history_view(old(self).price_history@), entry@),
            final(self).is_dirty == (old(self).is_dirty || history_view(final(self).price_history@) != history_view(
                old(self).price_history@,
            )),
            crate::trade::opt_str_view(final(self).changes) == if history_view(final(self).price_history@) != history_view(
                old(self).price_history@,
            ) {
                Some("price_history"@)
            } else {
                crate::trade::opt_str_view(old(self).changes)
            },
    {
        if add_price_history(&mut self.price_history, entry) {
            self.is_dirty = true;
            self.changes = Some("price_history".to_owned());
        }
    }
}

/// A traded item's figures as the trade window shows them.
#[derive(Debug)]
pub struct TradeDetails {
    pub id: String,
    pub name: String,
    pub wfm_id: String,
    pub image: String,
    pub quantity: u32,
    pub profit: i64,
    pub lowest_price: i64,
    pub highest_price: i64,
    pub update_string: String,
    pub price_history: Vec<PriceHistory>,
}

impl TradeDetails {
    /// Nothing known yet.
    pub fn new() -> (res: TradeDetails)
        ensures
            res.id@ == Seq::<char>::empty() && res.name@ == Seq::<char>::empty() && res.wfm_id@ == Seq::<char>::empty(),
            res.image@ == Seq::<char>::empty() && res.update_string@ == Seq::<char>::empty(),
            res.quantity == 0 && res.profit == 0 && res.lowest_price == 0 && res.highest_price == 0,
            res.price_history@.len() == 0,
    {
        TradeDetails {
            id: String::new(),
            name: String::new(),
            wfm_id: String::new(),
            image: String::new(),
            quantity: 0,
            profit: 0,
            lowest_price: 0,
            highest_price: 0,
            update_string: String::new(),
            price_history: Vec::new(),
        }
    }

    /// Records a price (see `history_after`).
    pub fn add_price_history(&mut self, entry: PriceHistory)
        ensures
            history_view(final(self).price_history@) == history_after(history_view(old(self).price_history@), entry@),
    {
        add_price_history(&mut self.price_history, entry);
    }

    /// Takes the catalogue's id, name and image for the item.
    pub fn apply_trade_item_info(&mut self, wfm_id: &str, name: &str, image_url: &str)
        ensures
            final(self).wfm_id@ == wfm_id@,
            final(self).name@ == name@,
            final(self).image@ == image_url@,
            history_view(final(self).price_history@) == history_view(old(self).price_history@),
    {
        self.wfm_id = wfm_id.to_owned();
        self.name = name.to_owned();
        self.image = image_url.to_owned();
    }
}

} // verus!
