//! The price decisions of the live trading workflows: what to post for an item
//! that is sold from stock, bought, bought for the wish list or sold for
//! syndicate standing, what to ask for a riven, and what to do with the order.
//!
//! Each decision is split where it needs a figure the caller computes from the
//! live order book (the price-drop guard, the budget selection): the caller runs
//! the first part, computes the figure, and hands it to the next part.
use vstd::prelude::*;
use crate::market::{ItemMarketInfo, Listing, StockStatus};
use crate::operations::{OperationSet, add_spec};

verus! {

/// An integer that an `i64` holds.
pub open spec fn fits_i64(x: int) -> bool {
    i64::MIN <= x <= i64::MAX
}

/// A setting of -1 or below switches its rule off.
pub open spec fn enabled(setting: i64) -> bool {
    setting > -1
}

/// What happens to a live order.
#[derive(Clone, Copy, Debug, PartialEq, Eq, Structural)]
pub enum OrderAction {
    Create,
    Update,
    Delete,
    /// Marked for deletion but there is no order to delete.
    SkipHidden,
    /// No new order can be created: the account's limit is reached.
    SkipLimit,
    /// Nothing worth doing.
    SkipNotOptimal,
}

/// The action for an order: create when asked and not deleted and the limit
/// allows, update when asked and not deleted, delete when an existing order is
/// marked for deletion; otherwise skip.
pub open spec fn order_action_spec(ops: Seq<Seq<char>>, can_create: bool) -> OrderAction {
    if ops.contains("Create"@) && !ops.contains("Delete"@) && can_create {
        OrderAction::Create
    } else if ops.contains("Update"@) && !ops.contains("Delete"@) {
        OrderAction::Update
    } else if ops.contains("Update"@) && ops.contains("Delete"@) {
        OrderAction::Delete
    } else if !can_create {
        OrderAction::SkipLimit
    } else {
        OrderAction::SkipNotOptimal
    }
}

/// The action for a riven auction: as for an order, except that an auction
/// marked for deletion with nothing to delete is skipped as hidden.
pub open spec fn auction_action_spec(ops: Seq<Seq<char>>, can_create: bool) -> OrderAction {
    if ops.contains("Create"@) && !ops.contains("Delete"@) && can_create {
        OrderAction::Create
    } else if ops.contains("Update"@) && !ops.contains("Delete"@) {
        OrderAction::Update
    } else if ops.contains("Update"@) && ops.contains("Delete"@) {
        OrderAction::Delete
    } else if ops.contains("Delete"@) {
        OrderAction::SkipHidden
    } else if !can_create {
        OrderAction::SkipLimit
    } else {
        OrderAction::SkipNotOptimal
    }
}

/// What to do with an item order (see `order_action_spec`).
pub fn order_action(ops: &OperationSet, can_create: bool) -> (res: OrderAction)
    ensures
        res == order_action_spec(ops@, can_create),
{
    if ops.has("Create") && !ops.has("Delete") && can_create {
        OrderAction::Create
    } else if ops.has("Update") && !ops.has("Delete") {
        OrderAction::Update
    } else if ops.has("Update") && ops.has("Delete") {
        OrderAction::Delete
    } else if !can_create {
        OrderAction::SkipLimit
    } else {
        OrderAction::SkipNotOptimal
    }
}

/// What to do with a riven auction (see `auction_action_spec`).
pub fn auction_action(ops: &OperationSet, can_create: bool) -> (res: OrderAction)
    ensures
        res == auction_action_spec(ops@, can_create),
{
    if ops.has("Create") && !ops.has("Delete") && can_create {
        OrderAction::Create
    } else if ops.has("Update") && !ops.has("Delete") {
        OrderAction::Update
    } else if ops.has("Update") && ops.has("Delete") {
        OrderAction::Delete
    } else if ops.has("Delete") {
        OrderAction::SkipHidden
    } else if !can_create {
        OrderAction::SkipLimit
    } else {
        OrderAction::SkipNotOptimal
    }
}

/// A hidden listing: skipped when already inactive (`None`), otherwise switched
/// off, unpriced, locked and its order marked for deletion.
pub open spec fn hide_spec(l: Listing, ops: Seq<Seq<char>>) -> Option<(Listing, Seq<Seq<char>>)> {
    if l.is_hidden && l.status == StockStatus::InActive {
        None
    } else if l.is_hidden {
        Some((Listing { status: StockStatus::InActive, list_price: None, locked: true, ..l }, add_spec(ops, "Delete"@)))
    } else {
        Some((l, ops))
    }
}

fn conceal(l: Listing, ops: &mut OperationSet) -> (res: Option<Listing>)
    ensures
        match hide_spec(l, old(ops)@) {
            None => res is None && final(ops)@ == old(ops)@,
            Some((l2, o2)) => res == Some(l2) && final(ops)@ == o2,
        },
{
    if l.is_hidden && l.status == StockStatus::InActive {
        None
    } else if l.is_hidden {
        ops.add("Delete");
        Some(Listing { status: StockStatus::InActive, list_price: None, locked: true, ..l })
    } else {
        Some(l)
    }
}

/// The price-drop guard's answer: keep the current order price and record why.
pub open spec fn drop_spec(post: i64, ops: Seq<Seq<char>>, drop: Option<Seq<char>>, current: i64) -> (i64, Seq<Seq<char>>) {
    match drop {
        Some(reason) => (current, add_spec(ops, reason)),
        None => (post, ops),
    }
}

fn apply_drop(post: i64, ops: &mut OperationSet, drop: &Option<String>, current: i64) -> (res: i64)
    ensures
        (res, final(ops)@) == drop_spec(post, old(ops)@, match *drop {
            Some(r) => Some(r@),
            None => None,
        }, current),
{
    match drop {
        Some(reason) => {
            ops.add(reason.as_str());
            current
        },
        None => post,
    }
}

/// The contents of an optional reason.
pub open spec fn reason_view(r: Option<String>) -> Option<Seq<char>> {
    match r {
        Some(s) => Some(s@),
        None => None,
    }
}

/// A sell price in the making: the price so far, the lowest competing price,
/// the listing and the operations.
pub struct SellDraft {
    pub post_price: i64,
    pub lowest_price: i64,
    pub listing: Listing,
    pub operations: OperationSet,
}

/// The first part of the sell decision, up to the price-drop guard. `None` when
/// the listing is hidden and inactive. With fewer than two sellers the lowest
/// price is 0, and without a minimum price the listing is marked as having no
/// sellers; a minimum price raises the price to it.
pub open spec fn sell_draft_spec(l: Listing, market: ItemMarketInfo, min_price: Option<i64>, ops: Seq<Seq<char>>) -> Option<
    (i64, i64, Listing, Seq<Seq<char>>),
> {
    match hide_spec(l, ops) {
        None => None,
        Some((l1, o1)) => {
            let (lowest, l2, o2) = if market.volume >= 2 {
                (market.lowest_price, l1, o1)
            } else if min_price is None {
                (
                    0i64,
                    Listing { status: StockStatus::NoSellers, list_price: None, locked: true, ..l1 },
                    add_spec(add_spec(o1, "Delete"@), "NoSellers"@),
                )
            } else {
                (0i64, l1, o1)
            };
            let (post, o3) = match min_price {
                Some(mp) => if mp > lowest {
                    (mp, add_spec(o2, "MinimumPrice"@))
                } else {
                    (lowest, o2)
                },
                None => (lowest, o2),
            };
            Some((post, lowest, l2, o3))
        },
    }
}

/// The first part of the sell decision (see `sell_draft_spec`).
pub fn sell_draft(listing: Listing, market: ItemMarketInfo, min_price: Option<i64>, operations: OperationSet) -> (res:
    Option<SellDraft>)
    ensures
        match sell_draft_spec(listing, market, min_price, operations@) {
            None => res is None,
            Some((post, lowest, l, ops)) => res is Some && res->0.post_price == post && res->0.lowest_price == lowest
                && res->0.listing == l && res->0.operations@ == ops,
        },
{
    let mut ops = operations;
    let l1 = match conceal(listing, &mut ops) {
        None => return None,
        Some(l) => l,
    };
    let mut l2 = l1;
    let lowest: i64 = if market.volume >= 2 {
        market.lowest_price
    } else if min_price.is_none() {
        ops.add("Delete");
        ops.add("NoSellers");
        l2 = Listing { status: StockStatus::NoSellers, list_price: None, locked: true, ..l1 };
        0
    } else {
        0
    };
    let mut post = lowest;
    if let Some(mp) = min_price {
        if mp > post {
            post = mp;
            ops.add("MinimumPrice");
        }
    }
    Some(SellDraft { post_price: post, lowest_price: lowest, listing: l2, operations: ops })
}

/// The outcome of a price decision: the price to post (at least 1), the profit
/// over what was paid, the listing, and the operations for the order.
pub struct PriceOutcome {
    pub post_price: i64,
    pub profit: i64,
    pub listing: Listing,
    pub operations: OperationSet,
}

/// The rest of the sell decision. After the price-drop guard, a price below the
/// closed average minus the allowed gap is raised to the closed average (when
/// the lowest competitor still sells above what was paid); a profit below the
/// minimum raises the price to what was paid plus the minimum. The listing goes
/// live at that price; the posted price is at least 1.
pub open spec fn sell_finish_spec(
    post: i64,
    lowest: i64,
    l: Listing,
    ops: Seq<Seq<char>>,
    drop: Option<Seq<char>>,
    current_order_price: i64,
    closed_avg: i64,
    bought: i64,
    min_sma: i64,
    min_profit: i64,
) -> (i64, i64, Listing, Seq<Seq<char>>) {
    let (p1, o1) = drop_spec(post, ops, drop, current_order_price);
    let sma = enabled(min_sma) && p1 < closed_avg - min_sma && lowest > bought;
    let p2 = if sma { closed_avg } else { p1 };
    let o2 = if sma { add_spec(o1, "SMALimit"@) } else { o1 };
    let l2 = if sma { Listing { list_price: Some(closed_avg), status: StockStatus::SMALimit, locked: true, ..l } } else { l };
    let low = enabled(min_profit) && p2 - bought < min_profit;
    let p3 = if low { (bought + min_profit) as i64 } else { p2 };
    let o3 = if low { add_spec(o2, "LowProfit"@) } else { o2 };
    let l3 = if low { Listing { status: StockStatus::ToLowProfit, list_price: Some(p3), locked: true, ..l2 } } else { l2 };
    (if p3 < 1 { 1 } else { p3 }, (p3 - bought) as i64, Listing { list_price: Some(p3), status: StockStatus::Live, ..l3 }, o3)
}

/// The sums the rest of the sell decision computes stay in the `i64` range:
/// the closed average less the allowed gap (when that rule is on), the margin
/// of the price over what was paid, and what was paid plus the minimum profit
/// (when the price is raised to it).
pub open spec fn sell_finish_fits(
    post: i64,
    lowest: i64,
    drop: Option<Seq<char>>,
    current_order_price: i64,
    closed_avg: i64,
    bought: i64,
    min_sma: i64,
    min_profit: i64,
) -> bool {
    let p1 = drop_spec(post, Seq::empty(), drop, current_order_price).0;
    let sma = enabled(min_sma) && p1 < closed_avg - min_sma && lowest > bought;
    let p2 = if sma { closed_avg } else { p1 };
    let low = enabled(min_profit) && p2 - bought < min_profit;
    &&& enabled(min_sma) ==> fits_i64(closed_avg - min_sma)
    &&& fits_i64(p2 - bought)
    &&& low ==> fits_i64(bought + min_profit)
}

/// The rest of the sell decision (see `sell_finish_spec`). `drop` is the price-drop
/// guard's answer for the draft price; `min_sma` and `min_profit` are the item's
/// own limits or else the general ones.
pub fn sell_finish(
    draft: SellDraft,
    drop: &Option<String>,
    current_order_price: i64,
    closed_avg: i64,
    bought: i64,
    min_sma: i64,
    min_profit: i64,
) -> (res: PriceOutcome)
    requires
        sell_finish_fits(
            draft.post_price,
            draft.lowest_price,
            reason_view(*drop),
            current_order_price,
            closed_avg,
            bought,
            min_sma,
            min_profit,
        ),
    ensures
        (res.post_price, res.profit, res.listing, res.operations@) == sell_finish_spec(
            draft.post_price,
            draft.lowest_price,
            draft.listing,
            draft.operations@,
            reason_view(*drop),
            current_order_price,
            closed_avg,
            bought,
            min_sma,
            min_profit,
        ),
{
    let mut ops = draft.operations;
    let mut l = draft.listing;
    let mut post = apply_drop(draft.post_price, &mut ops, drop, current_order_price);
    if min_sma > -1 && post < closed_avg - min_sma && draft.lowest_price > bought {
        post = closed_avg;
        ops.add("SMALimit");
        l = Listing { list_price: Some(closed_avg), status: StockStatus::SMALimit, locked: true, ..l };
    }
    let margin = post - bought;
    if min_profit > -1 && margin < min_profit {
        post = bought + min_profit;
        ops.add("LowProfit");
        l = Listing { status: StockStatus::ToLowProfit, list_price: Some(post), locked: true, ..l };
    }
    let profit = post - bought;
    let listing = Listing { list_price: Some(post), status: StockStatus::Live, ..l };
    let posted = if post < 1 { 1 } else { post };
    PriceOutcome { post_price: posted, profit, listing, operations: ops }
}

/// How a buy decision begins.
#[derive(Clone, Copy, Debug, PartialEq, Eq, Structural)]
pub enum BuyStart {
    /// Nobody buys or sells the item: leave it.
    NoVolume,
    /// Enough is already in stock: delete the buy order.
    DeleteForStock,
    /// Go on with this price (the highest buy order).
    Price(i64),
}

/// The first part of the buy decision: nothing without buyers and sellers;
/// the buy order goes once the stock holds the most wanted (when that limit is
/// on and the item is in stock); otherwise start from the highest buy order.
pub open spec fn buy_start_spec(buy: ItemMarketInfo, sell: ItemMarketInfo, max_stock_quantity: i64, owned: Option<i64>) -> BuyStart {
    if buy.volume == 0 || sell.volume == 0 {
        BuyStart::NoVolume
    } else if enabled(max_stock_quantity) && owned is Some && owned->0 >= max_stock_quantity {
        BuyStart::DeleteForStock
    } else {
        BuyStart::Price(buy.highest_price)
    }
}

/// The first part of the buy decision (see `buy_start_spec`); `owned` is what the
/// stock holds of the item, `None` when it is not in stock.
pub fn buy_start(buy: ItemMarketInfo, sell: ItemMarketInfo, max_stock_quantity: i64, owned: Option<i64>) -> (res: BuyStart)
    ensures
        res == buy_start_spec(buy, sell, max_stock_quantity, owned),
{
    if buy.volume == 0 || sell.volume == 0 {
        return BuyStart::NoVolume;
    }
    if max_stock_quantity > -1 {
        if let Some(o) = owned {
            if o >= max_stock_quantity {
                return BuyStart::DeleteForStock;
            }
        }
    }
    BuyStart::Price(buy.highest_price)
}

/// A buy price in the making: the price, the expected profit (closed average
/// minus the price after the drop guard, minus 1), the margin over the closed
/// average, and the operations.
pub struct BuyDraft {
    pub post_price: i64,
    pub potential_profit: i64,
    pub closed_avg_metric: i64,
    pub operations: OperationSet,
}

/// The middle of the buy decision: after the price-drop guard, measure the
/// price against the closed average, cap it at the item's own maximum (when
/// positive), and mark it for deletion above the average price cap.
pub open spec fn buy_price_spec(
    post: i64,
    ops: Seq<Seq<char>>,
    drop: Option<Seq<char>>,
    current_order_price: i64,
    closed_avg: i64,
    item_max_price: i64,
    avg_price_cap: i64,
) -> (i64, i64, i64, Seq<Seq<char>>) {
    let (p1, o1) = drop_spec(post, ops, drop, current_order_price);
    let metric = closed_avg - p1;
    let capped = item_max_price > 0 && p1 > item_max_price;
    let p2 = if capped { item_max_price } else { p1 };
    let o2 = if capped { add_spec(o1, "AboveMaxBuyPrice"@) } else { o1 };
    let o3 = if enabled(avg_price_cap) && p2 > avg_price_cap {
        add_spec(add_spec(o2, "AboveAvgPrice"@), "Delete"@)
    } else {
        o2
    };
    (p2, (metric - 1) as i64, metric as i64, o3)
}

/// The middle of the buy decision (see `buy_price_spec`).
pub fn buy_price(
    post: i64,
    operations: OperationSet,
    drop: &Option<String>,
    current_order_price: i64,
    closed_avg: i64,
    item_max_price: i64,
    avg_price_cap: i64,
) -> (res: BuyDraft)
    requires
        fits_i64(closed_avg - drop_spec(post, Seq::empty(), reason_view(*drop), current_order_price).0 - 1),
        fits_i64(closed_avg - drop_spec(post, Seq::empty(), reason_view(*drop), current_order_price).0),
    ensures
        (res.post_price, res.potential_profit, res.closed_avg_metric, res.operations@) == buy_price_spec(
            post,
            operations@,
            reason_view(*drop),
            current_order_price,
            closed_avg,
            item_max_price,
            avg_price_cap,
        ),
{
    let mut ops = operations;
    let p1 = apply_drop(post, &mut ops, drop, current_order_price);
    let metric = closed_avg - p1;
    let mut p2 = p1;
    if item_max_price > 0 && p1 > item_max_price {
        ops.add("AboveMaxBuyPrice");
        p2 = item_max_price;
    }
    if avg_price_cap > -1 && p2 > avg_price_cap {
        ops.add("AboveAvgPrice");
        ops.add("Delete");
    }
    BuyDraft { post_price: p2, potential_profit: metric - 1, closed_avg_metric: metric, operations: ops }
}

/// The end of the buy decision. `selected` is whether the budget selection kept
/// the item (`None` when the total budget is off): when it did not, the order is
/// skipped and marked for deletion and nothing is posted (`false`). Otherwise a
/// price above the closed average, or a buy-side spread below the profit
/// threshold, marks the order for deletion.
pub open spec fn buy_settle_spec(
    metric: i64,
    selected: Option<bool>,
    price_range: i64,
    profit_threshold: i64,
    ops: Seq<Seq<char>>,
) -> (bool, Seq<Seq<char>>) {
    if selected == Some(false) {
        (false, add_spec(add_spec(ops, "Skip"@), "Delete"@))
    } else {
        let o1 = if metric < 0 {
            add_spec(add_spec(ops, "Delete"@), "Overpriced"@)
        } else {
            ops
        };
        let o2 = if price_range < profit_threshold {
            add_spec(add_spec(o1, "Delete"@), "Underpriced"@)
        } else {
            o1
        };
        (true, o2)
    }
}

/// The end of the buy decision (see `buy_settle_spec`); returns whether the
/// order is to be posted.
pub fn buy_settle(
    draft: &mut BuyDraft,
    selected: Option<bool>,
    price_range: i64,
    profit_threshold: i64,
) -> (post: bool)
    ensures
        final(draft).post_price == old(draft).post_price,
        final(draft).potential_profit == old(draft).potential_profit,
        final(draft).closed_avg_metric == old(draft).closed_avg_metric,
        (post, final(draft).operations@) == buy_settle_spec(
            old(draft).closed_avg_metric,
            selected,
            price_range,
            profit_threshold,
            old(draft).operations@,
        ),
{
    if selected == Some(false) {
        draft.operations.add("Skip");
        draft.operations.add("Delete");
        return false;
    }
    if draft.closed_avg_metric < 0 {
        draft.operations.add("Delete");
        draft.operations.add("Overpriced");
    }
    if price_range < profit_threshold {
        draft.operations.add("Delete");
        draft.operations.add("Underpriced");
    }
    true
}

/// The wish-list decision. `None` when the listing is hidden and inactive.
/// Without buyers the price is the average price and the listing is marked as
/// having no buyers; otherwise the highest buy order. Positive limits cap the
/// price from above and below; the price is at least 1 and the listing goes live
/// at it.
pub open spec fn wish_list_spec(
    l: Listing,
    market: ItemMarketInfo,
    avg_price: i64,
    min_price: i64,
    max_price: i64,
    ops: Seq<Seq<char>>,
) -> Option<(i64, Listing, Seq<Seq<char>>)> {
    match hide_spec(l, ops) {
        None => None,
        Some((l1, o1)) => {
            let none = market.volume == 0;
            let p0 = if none { avg_price } else { market.highest_price };
            let o2 = if none { add_spec(o1, "NoBuyers"@) } else { o1 };
            let l2 = if none { Listing { status: StockStatus::NoBuyers, ..l1 } } else { l1 };
            let above = max_price > 0 && p0 > max_price;
            let p1 = if above { max_price } else { p0 };
            let o3 = if above { add_spec(o2, "MaxPrice"@) } else { o2 };
            let below = min_price > 0 && p1 < min_price;
            let p2 = if below { min_price } else { p1 };
            let o4 = if below { add_spec(o3, "MinPrice"@) } else { o3 };
            let p3 = if p2 < 1 { 1 } else { p2 };
            Some((p3, Listing { list_price: Some(p3), status: StockStatus::Live, ..l2 }, o4))
        },
    }
}

/// The wish-list decision (see `wish_list_spec`); the outcome's profit is 0.
pub fn wish_list_price(
    listing: Listing,
    market: ItemMarketInfo,
    avg_price: i64,
    min_price: i64,
    max_price: i64,
    operations: OperationSet,
) -> (res: Option<PriceOutcome>)
    ensures
        match wish_list_spec(listing, market, avg_price, min_price, max_price, operations@) {
            None => res is None,
            Some((p, l, o)) => res is Some && res->0.post_price == p && res->0.profit == 0 && res->0.listing == l
                && res->0.operations@ == o,
        },
{
    let mut ops = operations;
    let l1 = match conceal(listing, &mut ops) {
        None => return None,
        Some(l) => l,
    };
    let mut l2 = l1;
    let mut post = if market.volume == 0 {
        ops.add("NoBuyers");
        l2 = Listing { status: StockStatus::NoBuyers, ..l1 };
        avg_price
    } else {
        market.highest_price
    };
    if max_price > 0 && post > max_price {
        post = max_price;
        ops.add("MaxPrice");
    }
    if min_price > 0 && post < min_price {
        post = min_price;
        ops.add("MinPrice");
    }
    if post < 1 {
        post = 1;
    }
    Some(PriceOutcome {
        post_price: post,
        profit: 0,
        listing: Listing { list_price: Some(post), status: StockStatus::Live, ..l2 },
        operations: ops,
    })
}

/// The syndicate decision: the lowest sell order, or the current order price
/// when the price-drop guard says so; at least 1.
pub open spec fn syndicate_spec(lowest: i64, ops: Seq<Seq<char>>, drop: Option<Seq<char>>, current: i64) -> (i64, Seq<Seq<char>>) {
    let (p, o) = drop_spec(lowest, ops, drop, current);
    (if p < 1 { 1 } else { p }, o)
}

/// The syndicate decision (see `syndicate_spec`).
pub fn syndicate_price(lowest_price: i64, operations: &mut OperationSet, drop: &Option<String>, current_order_price: i64) -> (res: i64)
    ensures
        (res, final(operations)@) == syndicate_spec(lowest_price, old(operations)@, reason_view(*drop), current_order_price),
{
    let p = apply_drop(lowest_price, operations, drop, current_order_price);
    if p < 1 {
        1
    } else {
        p
    }
}

/// The riven decision. `None` when the listing is hidden and inactive. `average`
/// is the average of the lowest competing auctions; without auctions the price
/// is what was paid plus the minimum profit plus 1 and the listing is marked as
/// having no sellers. A minimum price raises the price to it; a profit below
/// the minimum (when that rule is on) raises the price to what was paid plus the
/// minimum. The listing goes live at the price.
pub open spec fn riven_spec(
    l: Listing,
    ops: Seq<Seq<char>>,
    average: i64,
    total_auctions: usize,
    bought: i64,
    min_profit: i64,
    minimum_price: Option<i64>,
) -> Option<(i64, i64, Listing, Seq<Seq<char>>)> {
    match hide_spec(l, ops) {
        None => None,
        Some((l1, o1)) => {
            let none = total_auctions == 0;
            let p0 = if none { (bought + min_profit + 1) as i64 } else { average };
            let l2 = if none { Listing { status: StockStatus::NoSellers, list_price: Some(p0), locked: true, ..l1 } } else { l1 };
            let raise = minimum_price is Some && minimum_price->0 > p0;
            let p1 = if raise { minimum_price->0 } else { p0 };
            let o2 = if raise { add_spec(o1, "MinimumPrice"@) } else { o1 };
            let low = enabled(min_profit) && p1 - bought < min_profit;
            let p2 = if low { (bought + min_profit) as i64 } else { p1 };
            let o3 = if low { add_spec(o2, "LowProfit"@) } else { o2 };
            let l3 = if low { Listing { status: StockStatus::ToLowProfit, list_price: Some(p2), locked: true, ..l2 } } else { l2 };
            Some((p2, (p2 - bought) as i64, Listing { list_price: Some(p2), status: StockStatus::Live, ..l3 }, o3))
        },
    }
}

/// The sums the riven decision computes stay in the `i64` range (a listing that
/// is hidden and inactive computes none): what was paid plus the minimum profit
/// (plus 1) when there are no auctions, the margin of the price over what was
/// paid, and what was paid plus the minimum profit when the price is raised to it.
pub open spec fn riven_fits(
    l: Listing,
    average: i64,
    total_auctions: usize,
    bought: i64,
    min_profit: i64,
    minimum_price: Option<i64>,
) -> bool {
    let none = total_auctions == 0;
    let p0 = if none { bought + min_profit + 1 } else { average as int };
    let raise = minimum_price is Some && minimum_price->0 > p0;
    let p1 = if raise { minimum_price->0 as int } else { p0 };
    let low = enabled(min_profit) && p1 - bought < min_profit;
    !(l.is_hidden && l.status == StockStatus::InActive) ==> {
        &&& none ==> fits_i64(bought + min_profit) && fits_i64(bought + min_profit + 1)
        &&& fits_i64(p1 - bought)
        &&& low ==> fits_i64(bought + min_profit)
    }
}

/// The riven decision (see `riven_spec`); the outcome's price is not raised to 1.
pub fn riven_price(
    listing: Listing,
    operations: OperationSet,
    average: i64,
    total_auctions: usize,
    bought: i64,
    min_profit: i64,
    minimum_price: Option<i64>,
) -> (res: Option<PriceOutcome>)
    requires
        riven_fits(listing, average, total_auctions, bought, min_profit, minimum_price),
    ensures
        match riven_spec(listing, operations@, average, total_auctions, bought, min_profit, minimum_price) {
            None => res is None,
            Some((p, profit, l, o)) => res is Some && res->0.post_price == p && res->0.profit == profit
                && res->0.listing == l && res->0.operations@ == o,
        },
{
    let mut ops = operations;
    let l1 = match conceal(listing, &mut ops) {
        None => return None,
        Some(l) => l,
    };
    let mut l2 = l1;
    let mut post = average;
    if total_auctions == 0 {
        post = bought + min_profit + 1;
        l2 = Listing { status: StockStatus::NoSellers, list_price: Some(post), locked: true, ..l1 };
    }
    if let Some(mp) = minimum_price {
        if mp > post {
            post = mp;
            ops.add("MinimumPrice");
        }
    }
    let margin = post - bought;
    if min_profit > -1 && margin < min_profit {
        post = bought + min_profit;
        ops.add("LowProfit");
        l2 = Listing { status: StockStatus::ToLowProfit, list_price: Some(post), locked: true, ..l2 };
    }
    Some(PriceOutcome {
        post_price: post,
        profit: post - bought,
        listing: Listing { list_price: Some(post), status: StockStatus::Live, ..l2 },
        operations: ops,
    })
}

/// What the live buy comparison decides for one item.
#[derive(Clone, Copy, Debug, PartialEq, Eq, Structural)]
pub enum LiveBuyDecision {
    /// Leave the item alone.
    Skip,
    /// Above the average price cap: leave it alone.
    AboveCap,
    /// Move the existing buy order to this price.
    Update(i64),
    /// Post a new, visible buy order at this price.
    Post(i64),
    /// The existing order already asks this price.
    KeepCurrent,
    /// Enough is held already: delete the existing order when there is one.
    HoldingTooMany { delete: bool },
    /// Worth buying at this price with no order up: the budget selection decides.
    Select(i64),
    /// Not a good time: delete the existing order.
    Delete,
}

/// Integer division by 3, rounding toward zero.
pub open spec fn div3_toward_zero(x: int) -> int {
    if x >= 0 {
        x / 3
    } else {
        -((-x) / 3)
    }
}

/// The price posted when nobody buys: the larger of the price range less 40
/// and a third of it less 1.
pub open spec fn no_buyer_price(price_range: i64) -> int {
    let a = price_range - 40;
    let b = div3_toward_zero(price_range as int) - 1;
    if a >= b {
        a
    } else {
        b
    }
}

/// The live buy comparison. Without sellers nothing is done. Without buyers an
/// item whose closed average is above 25 gets an order at `no_buyer_price`
/// (none above the average price cap; at least 1), updating the existing order
/// when one is up; other items without buyers are left alone. Otherwise the
/// price is the highest buy order: above the cap it is left alone; holding more
/// than one while the margin over the closed average (`metric`, the float margin
/// cut to an integer) is below 25 per item held ends the order; a margin of at
/// least 30 with a range of at least 15, or a range of at least 21, keeps or
/// moves the order, or sends the item to the budget selection when none is up;
/// otherwise an order that is up is deleted.
pub open spec fn live_buy_spec(
    sellers: i64,
    buyers: i64,
    closed_avg_over_25: bool,
    price_range: i64,
    avg_price_cap: i64,
    highest_buy: i64,
    metric: i64,
    owned: i64,
    active: bool,
    current_price: i64,
) -> LiveBuyDecision {
    if sellers == 0 {
        LiveBuyDecision::Skip
    } else if buyers == 0 && closed_avg_over_25 {
        let p = no_buyer_price(price_range);
        if p > avg_price_cap {
            LiveBuyDecision::AboveCap
        } else {
            let q = if p < 1 { 1 } else { p };
            if active {
                LiveBuyDecision::Update(q as i64)
            } else {
                LiveBuyDecision::Post(q as i64)
            }
        }
    } else if buyers == 0 {
        LiveBuyDecision::Skip
    } else if highest_buy > avg_price_cap {
        LiveBuyDecision::AboveCap
    } else if owned > 1 && metric < 25 * owned {
        LiveBuyDecision::HoldingTooMany { delete: active }
    } else if (metric >= 30 && price_range >= 15) || price_range >= 21 {
        if active {
            if current_price != highest_buy {
                LiveBuyDecision::Update(highest_buy)
            } else {
                LiveBuyDecision::KeepCurrent
            }
        } else {
            LiveBuyDecision::Select(highest_buy)
        }
    } else if active {
        LiveBuyDecision::Delete
    } else {
        LiveBuyDecision::Skip
    }
}

/// The live buy comparison (see `live_buy_spec`). `closed_avg_over_25` is
/// whether the closed average (a float) is above 25; `metric` is the closed
/// average less the highest buy order, cut toward zero to an integer.
pub fn live_buy_decision(
    sellers: i64,
    buyers: i64,
    closed_avg_over_25: bool,
    price_range: i64,
    avg_price_cap: i64,
    highest_buy: i64,
    metric: i64,
    owned: i64,
    active: bool,
    current_price: i64,
) -> (res: LiveBuyDecision)
    requires
        sellers != 0 && buyers == 0 && closed_avg_over_25 ==> price_range >= i64::MIN + 40,
        sellers != 0 && buyers != 0 && highest_buy <= avg_price_cap && owned > 1 ==> fits_i64(25 * owned),
    ensures
        res == live_buy_spec(
            sellers,
            buyers,
            closed_avg_over_25,
            price_range,
            avg_price_cap,
            highest_buy,
            metric,
            owned,
            active,
            current_price,
        ),
{
    if sellers == 0 {
        return LiveBuyDecision::Skip;
    }
    if buyers == 0 && closed_avg_over_25 {
        let a = price_range - 40;
        let third = if price_range >= 0 {
            price_range / 3
        } else {
            -((-price_range) / 3)
        };
        let b = third - 1;
        let p = if a >= b { a } else { b };
        if p > avg_price_cap {
            return LiveBuyDecision::AboveCap;
        }
        let q = if p < 1 { 1 } else { p };
        return if active {
            LiveBuyDecision::Update(q)
        } else {
            LiveBuyDecision::Post(q)
        };
    }
    if buyers == 0 {
        return LiveBuyDecision::Skip;
    }
    if highest_buy > avg_price_cap {
        return LiveBuyDecision::AboveCap;
    }
    if owned > 1 && metric < 25 * owned {
        return LiveBuyDecision::HoldingTooMany { delete: active };
    }
    if (metric >= 30 && price_range >= 15) || price_range >= 21 {
        if active {
            if current_price != highest_buy {
                LiveBuyDecision::Update(highest_buy)
            } else {
                LiveBuyDecision::KeepCurrent
            }
        } else {
            LiveBuyDecision::Select(highest_buy)
        }
    } else if active {
        LiveBuyDecision::Delete
    } else {
        LiveBuyDecision::Skip
    }
}

/// The buy decision never goes on for an item that nobody buys or nobody
/// sells; it deletes the buy order only when the stock limit is on and the
/// stock holds at least that many; otherwise it starts from the highest buy
/// order.
pub proof fn lemma_buy_start_meaning(buy: ItemMarketInfo, sell: ItemMarketInfo, max_stock_quantity: i64, owned: Option<i64>)
    ensures
        ({
            let r = buy_start_spec(buy, sell, max_stock_quantity, owned);
            &&& (buy.volume == 0 || sell.volume == 0) ==> r == BuyStart::NoVolume
            &&& r == BuyStart::NoVolume ==> buy.volume == 0 || sell.volume == 0
            &&& r == BuyStart::DeleteForStock ==> (max_stock_quantity > -1 && owned is Some && owned->0
                >= max_stock_quantity)
            &&& r matches BuyStart::Price(p) ==> (p == buy.highest_price && buy.volume > 0 && sell.volume > 0 && !(
            max_stock_quantity > -1 && owned is Some && owned->0 >= max_stock_quantity))
        }),
{
}

/// Whether creating is allowed matters only for a create: an order or auction
/// marked for update and not for deletion is updated whatever the limit says
/// (unless it is created instead, which needs the limit to allow it), and an
/// action other than create or "nothing worth doing" is the same whether or
/// not the limit allows creating.
pub proof fn lemma_limit_gates_only_create(ops: Seq<Seq<char>>, can_create: bool)
    ensures
        ops.contains("Update"@) && !ops.contains("Delete"@) && !(ops.contains("Create"@) && can_create) ==> order_action_spec(
            ops,
            can_create,
        ) == OrderAction::Update && auction_action_spec(ops, can_create) == OrderAction::Update,
        order_action_spec(ops, can_create) == OrderAction::Create ==> can_create && ops.contains("Create"@)
            && !ops.contains("Delete"@),
        auction_action_spec(ops, can_create) == OrderAction::Create ==> can_create && ops.contains("Create"@)
            && !ops.contains("Delete"@),
        ({
            let t = auction_action_spec(ops, true);
            t != OrderAction::Create && t != OrderAction::SkipNotOptimal ==> auction_action_spec(ops, false) == t
        }),
        ({
            let t = order_action_spec(ops, true);
            t != OrderAction::Create && t != OrderAction::SkipNotOptimal ==> order_action_spec(ops, false) == t
        }),
        ops.contains("Update"@) && ops.contains("Delete"@) ==> order_action_spec(ops, can_create) == OrderAction::Delete
            && auction_action_spec(ops, can_create) == OrderAction::Delete,
{
}

/// The price posted for a sale, a wish-list buy or a syndicate sale is at least
/// 1 platinum.
pub proof fn lemma_posted_price_positive(
    post: i64,
    lowest: i64,
    l: Listing,
    ops: Seq<Seq<char>>,
    drop: Option<Seq<char>>,
    current: i64,
    closed_avg: i64,
    bought: i64,
    min_sma: i64,
    min_profit: i64,
    market: ItemMarketInfo,
    avg_price: i64,
    min_price: i64,
    max_price: i64,
)
    ensures
        sell_finish_spec(post, lowest, l, ops, drop, current, closed_avg, bought, min_sma, min_profit).0 >= 1,
        wish_list_spec(l, market, avg_price, min_price, max_price, ops) matches Some(w) ==> w.0 >= 1,
        syndicate_spec(lowest, ops, drop, current).0 >= 1,
{
}

/// With the minimum-profit rule on, a sale is posted at 1 platinum or more and
/// at no less than what was paid plus the minimum profit; a sale and a riven
/// ask for at least the minimum profit over what was paid, and the listing goes
/// live at the price asked. This holds for every figure whose sums fit in `i64`.
pub proof fn lemma_minimum_profit_kept(
    post: i64,
    lowest: i64,
    l: Listing,
    ops: Seq<Seq<char>>,
    drop: Option<Seq<char>>,
    current: i64,
    closed_avg: i64,
    bought: i64,
    min_sma: i64,
    min_profit: i64,
    average: i64,
    total_auctions: usize,
    minimum_price: Option<i64>,
)
    requires
        enabled(min_profit),
        sell_finish_fits(post, lowest, drop, current, closed_avg, bought, min_sma, min_profit),
        riven_fits(l, average, total_auctions, bought, min_profit, minimum_price),
    ensures
        ({
            let r = sell_finish_spec(post, lowest, l, ops, drop, current, closed_avg, bought, min_sma, min_profit);
            &&& r.0 >= 1
            &&& r.0 >= bought + min_profit
            &&& r.1 >= min_profit
            &&& r.2.status == StockStatus::Live
            &&& r.2.list_price == Some((r.1 + bought) as i64)
        }),
        riven_spec(l, ops, average, total_auctions, bought, min_profit, minimum_price) matches Some(r) ==> r.1 >= min_profit
            && r.2.status == StockStatus::Live && r.2.list_price == Some(r.0),
{
}

/// A hidden listing that is already inactive is left alone by every decision.
pub proof fn lemma_hidden_inactive_untouched(
    l: Listing,
    ops: Seq<Seq<char>>,
    market: ItemMarketInfo,
    min_price: Option<i64>,
    avg_price: i64,
    min_p: i64,
    max_p: i64,
    average: i64,
    total_auctions: usize,
    bought: i64,
    min_profit: i64,
)
    requires
        l.is_hidden,
        l.status == StockStatus::InActive,
    ensures
        sell_draft_spec(l, market, min_price, ops) is None,
        wish_list_spec(l, market, avg_price, min_p, max_p, ops) is None,
        riven_spec(l, ops, average, total_auctions, bought, min_profit, min_price) is None,
{
}

} // verus!
