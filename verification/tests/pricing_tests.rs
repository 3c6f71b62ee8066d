use quantframe::market::{ItemMarketInfo, Listing, StockStatus};
use quantframe::operations::OperationSet;
use quantframe::pricing::{
    live_buy_decision, LiveBuyDecision,
    auction_action, buy_price, buy_settle, buy_start, order_action, riven_price, sell_draft, sell_finish,
    syndicate_price, wish_list_price, BuyStart, OrderAction,
};

fn ops(list: &[&str]) -> OperationSet {
    let v: Vec<String> = list.iter().map(|s| s.to_string()).collect();
    OperationSet::from_list(&v)
}

fn live() -> Listing {
    Listing { status: StockStatus::Pending, list_price: None, locked: false, is_hidden: false }
}

fn market(lowest: i64, highest: i64, range: i64, volume: usize) -> ItemMarketInfo {
    ItemMarketInfo::new(lowest, highest, range, volume)
}

#[test]
fn order_action_follows_operations() {
    assert_eq!(order_action(&ops(&["Create"]), true), OrderAction::Create);
    assert_eq!(order_action(&ops(&["Create"]), false), OrderAction::SkipLimit);
    assert_eq!(order_action(&ops(&["Update"]), false), OrderAction::Update);
    assert_eq!(order_action(&ops(&["Update", "Delete"]), true), OrderAction::Delete);
    assert_eq!(order_action(&ops(&["Create", "Delete"]), true), OrderAction::SkipNotOptimal);
    assert_eq!(order_action(&ops(&[]), true), OrderAction::SkipNotOptimal);
}

#[test]
fn auction_action_skips_hidden() {
    assert_eq!(auction_action(&ops(&["Create", "Delete"]), true), OrderAction::SkipHidden);
    assert_eq!(auction_action(&ops(&["Update", "Delete"]), true), OrderAction::Delete);
    assert_eq!(auction_action(&ops(&["Create"]), false), OrderAction::SkipLimit);
}

#[test]
fn sell_hidden_inactive_is_skipped() {
    let l = Listing { status: StockStatus::InActive, list_price: None, locked: false, is_hidden: true };
    assert!(sell_draft(l, market(10, 20, 10, 5), None, ops(&[])).is_none());
}

#[test]
fn sell_hidden_active_is_deleted() {
    let l = Listing { status: StockStatus::Live, list_price: Some(5), locked: false, is_hidden: true };
    let d = sell_draft(l, market(10, 20, 10, 5), None, ops(&["Update"])).unwrap();
    assert_eq!(d.listing.status, StockStatus::InActive);
    assert_eq!(d.listing.list_price, None);
    assert!(d.listing.locked);
    assert!(d.operations.has("Delete"));
    assert_eq!(d.post_price, 10);
}

#[test]
fn sell_without_sellers_and_minimum() {
    let d = sell_draft(live(), market(0, 0, 0, 1), None, ops(&[])).unwrap();
    assert_eq!(d.post_price, 0);
    assert_eq!(d.lowest_price, 0);
    assert_eq!(d.listing.status, StockStatus::NoSellers);
    assert!(d.operations.has("NoSellers"));
    assert!(d.operations.has("Delete"));
}

#[test]
fn sell_minimum_price_raises() {
    let d = sell_draft(live(), market(8, 20, 12, 4), Some(15), ops(&[])).unwrap();
    assert_eq!(d.post_price, 15);
    assert!(d.operations.has("MinimumPrice"));
    let d2 = sell_draft(live(), market(18, 20, 2, 4), Some(15), ops(&[])).unwrap();
    assert_eq!(d2.post_price, 18);
    assert!(!d2.operations.has("MinimumPrice"));
}

#[test]
fn sell_low_profit_raises_price() {
    let d = sell_draft(live(), market(12, 30, 18, 4), None, ops(&[])).unwrap();
    let out = sell_finish(d, &None, 0, 0, 10, -1, 5);
    assert_eq!(out.post_price, 15);
    assert_eq!(out.profit, 5);
    assert!(out.operations.has("LowProfit"));
    assert_eq!(out.listing.status, StockStatus::Live);
    assert_eq!(out.listing.list_price, Some(15));
    assert!(out.listing.locked);
}

#[test]
fn sell_sma_limit_uses_closed_average() {
    let d = sell_draft(live(), market(20, 40, 20, 4), None, ops(&[])).unwrap();
    let out = sell_finish(d, &None, 0, 50, 10, 5, -1);
    assert_eq!(out.post_price, 50);
    assert_eq!(out.profit, 40);
    assert!(out.operations.has("SMALimit"));
    assert_eq!(out.listing.list_price, Some(50));
}

#[test]
fn sell_price_drop_keeps_current_price() {
    let d = sell_draft(live(), market(20, 40, 20, 4), None, ops(&[])).unwrap();
    let out = sell_finish(d, &Some("MaxPriceDrop".to_string()), 30, 0, 10, -1, -1);
    assert_eq!(out.post_price, 30);
    assert!(out.operations.has("MaxPriceDrop"));
}

#[test]
fn sell_price_is_at_least_one() {
    let d = sell_draft(live(), market(0, 0, 0, 0), Some(0), ops(&[])).unwrap();
    let out = sell_finish(d, &None, 0, 0, 0, -1, -1);
    assert_eq!(out.post_price, 1);
    assert_eq!(out.listing.list_price, Some(0));
}

#[test]
fn buy_start_cases() {
    assert_eq!(buy_start(market(1, 5, 4, 0), market(1, 5, 4, 3), -1, None), BuyStart::NoVolume);
    assert_eq!(buy_start(market(1, 5, 4, 2), market(1, 5, 4, 3), 3, Some(3)), BuyStart::DeleteForStock);
    assert_eq!(buy_start(market(1, 5, 4, 2), market(1, 5, 4, 3), 3, Some(2)), BuyStart::Price(5));
    assert_eq!(buy_start(market(1, 5, 4, 2), market(1, 5, 4, 3), -1, Some(9)), BuyStart::Price(5));
}

#[test]
fn buy_price_caps_and_metrics() {
    let d = buy_price(40, ops(&["Create"]), &None, 0, 50, 30, -1);
    assert_eq!(d.post_price, 30);
    assert_eq!(d.closed_avg_metric, 10);
    assert_eq!(d.potential_profit, 9);
    assert!(d.operations.has("AboveMaxBuyPrice"));
    let d2 = buy_price(40, ops(&[]), &None, 0, 50, 0, 35);
    assert!(d2.operations.has("AboveAvgPrice"));
    assert!(d2.operations.has("Delete"));
}

#[test]
fn buy_settle_cases() {
    let mut d = buy_price(60, ops(&[]), &None, 0, 50, 0, -1);
    assert!(!buy_settle(&mut d, Some(false), 10, 5));
    assert!(d.operations.has("Skip") && d.operations.has("Delete"));
    let mut d2 = buy_price(60, ops(&[]), &None, 0, 50, 0, -1);
    assert!(buy_settle(&mut d2, None, 2, 5));
    assert!(d2.operations.has("Overpriced"));
    assert!(d2.operations.has("Underpriced"));
}

#[test]
fn wish_list_price_cases() {
    let out = wish_list_price(live(), market(0, 0, 0, 0), 12, 0, 0, ops(&[])).unwrap();
    assert_eq!(out.post_price, 12);
    assert!(out.operations.has("NoBuyers"));
    assert_eq!(out.listing.status, StockStatus::Live);
    let out2 = wish_list_price(live(), market(5, 40, 35, 3), 12, 10, 30, ops(&[])).unwrap();
    assert_eq!(out2.post_price, 30);
    assert!(out2.operations.has("MaxPrice"));
    let out3 = wish_list_price(live(), market(1, 4, 3, 3), 12, 10, 30, ops(&[])).unwrap();
    assert_eq!(out3.post_price, 10);
    assert!(out3.operations.has("MinPrice"));
}

#[test]
fn syndicate_price_cases() {
    let mut o = ops(&[]);
    assert_eq!(syndicate_price(0, &mut o, &None, 0), 1);
    let mut o2 = ops(&[]);
    assert_eq!(syndicate_price(12, &mut o2, &Some("Drop".to_string()), 20), 20);
    assert!(o2.has("Drop"));
}

#[test]
fn riven_price_cases() {
    let out = riven_price(live(), ops(&[]), 0, 0, 100, 20, None).unwrap();
    assert_eq!(out.post_price, 121);
    assert_eq!(out.profit, 21);
    assert_eq!(out.listing.status, StockStatus::Live);
    let out2 = riven_price(live(), ops(&[]), 105, 3, 100, 20, None).unwrap();
    assert_eq!(out2.post_price, 120);
    assert!(out2.operations.has("LowProfit"));
    let out3 = riven_price(live(), ops(&[]), 150, 3, 100, 20, Some(200)).unwrap();
    assert_eq!(out3.post_price, 200);
    assert!(out3.operations.has("MinimumPrice"));
}

#[test]
fn large_figures_keep_the_profit_floor() {
    let big: i64 = 10_000_000_000;
    let d = sell_draft(live(), market(12, 30, 18, 4), None, ops(&[])).unwrap();
    let out = sell_finish(d, &None, 0, 0, big, -1, 7);
    assert_eq!(out.post_price, big + 7);
    assert_eq!(out.profit, 7);
    assert!(out.operations.has("LowProfit"));
    let r = riven_price(live(), ops(&[]), 0, 0, big, 20, None).unwrap();
    assert_eq!(r.post_price, big + 21);
    assert_eq!(r.profit, 21);
    let b = buy_price(big, ops(&[]), &None, 0, big + 50, 0, -1);
    assert_eq!(b.closed_avg_metric, 50);
    assert_eq!(b.potential_profit, 49);
}

#[test]
fn live_buy_decisions() {
    // no sellers
    assert_eq!(live_buy_decision(0, 5, true, 30, 100, 20, 40, 0, false, 0), LiveBuyDecision::Skip);
    // no buyers, valuable: max(90 - 40, 90 / 3 - 1) = 50
    assert_eq!(live_buy_decision(3, 0, true, 90, 100, 0, 0, 0, false, 0), LiveBuyDecision::Post(50));
    assert_eq!(live_buy_decision(3, 0, true, 90, 100, 0, 0, 0, true, 0), LiveBuyDecision::Update(50));
    // max(30 - 40, 30 / 3 - 1) = 9
    assert_eq!(live_buy_decision(3, 0, true, 30, 100, 0, 0, 0, false, 0), LiveBuyDecision::Post(9));
    assert_eq!(live_buy_decision(3, 0, true, 2, 100, 0, 0, 0, false, 0), LiveBuyDecision::Post(1));
    assert_eq!(live_buy_decision(3, 0, true, 90, 40, 0, 0, 0, false, 0), LiveBuyDecision::AboveCap);
    assert_eq!(live_buy_decision(3, 0, false, 90, 100, 0, 0, 0, false, 0), LiveBuyDecision::Skip);
    // buyers present
    assert_eq!(live_buy_decision(3, 2, false, 30, 10, 20, 40, 0, false, 0), LiveBuyDecision::AboveCap);
    assert_eq!(live_buy_decision(3, 2, false, 30, 100, 20, 40, 2, true, 0), LiveBuyDecision::HoldingTooMany { delete: true });
    assert_eq!(live_buy_decision(3, 2, false, 16, 100, 20, 30, 0, true, 18), LiveBuyDecision::Update(20));
    assert_eq!(live_buy_decision(3, 2, false, 16, 100, 20, 30, 0, true, 20), LiveBuyDecision::KeepCurrent);
    assert_eq!(live_buy_decision(3, 2, false, 21, 100, 20, 0, 0, false, 0), LiveBuyDecision::Select(20));
    assert_eq!(live_buy_decision(3, 2, false, 10, 100, 20, 29, 0, true, 20), LiveBuyDecision::Delete);
    assert_eq!(live_buy_decision(3, 2, false, 10, 100, 20, 29, 0, false, 20), LiveBuyDecision::Skip);
}
