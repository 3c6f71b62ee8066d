use quantframe::details::{AuctionDetails, OrderDetails, StockItemDetails, TradeDetails};
use quantframe::market::{add_price_history, PriceHistory};

fn prices(h: &Vec<PriceHistory>) -> Vec<i64> {
    h.iter().map(|p| p.price).collect()
}

#[test]
fn history_skips_repeated_price() {
    let mut h = Vec::new();
    assert!(add_price_history(&mut h, PriceHistory::new("t1", 10)));
    assert!(!add_price_history(&mut h, PriceHistory::new("t2", 10)));
    assert_eq!(prices(&h), vec![10]);
    assert_eq!(h[0].created_at, "t1");
}

#[test]
fn history_keeps_five() {
    let mut h = Vec::new();
    for p in 1..=7 {
        add_price_history(&mut h, PriceHistory::new("t", p));
    }
    assert_eq!(prices(&h), vec![3, 4, 5, 6, 7]);
}

#[test]
fn order_details_track_changes() {
    let mut d = OrderDetails::new();
    d.reset_changes();
    d.set_lowest_price(5);
    assert!(d.is_dirty);
    assert_eq!(d.changes, vec!["lowest_price".to_string()]);
    d.reset_changes();
    d.set_lowest_price(5);
    assert!(!d.is_dirty);
    assert!(d.changes.is_empty());
    d.set_range(3);
    d.set_highest_price(8);
    d.add_price_history(PriceHistory::new("t", 7));
    assert_eq!(d.changes, vec!["range".to_string(), "highest_price".to_string(), "price_history".to_string()]);
    d.set_total_buyers(4);
    assert_eq!(d.total_buyers, Some(4));
    d.reset_changes();
    d.set_moving_avg(11);
    assert_eq!(d.moving_avg, Some(11));
    assert!(d.changes.is_empty());
}

#[test]
fn auction_details_last_change() {
    let mut a = AuctionDetails::new(1, 2, 3, 4, 5, vec![]);
    a.is_dirty = false;
    a.set_profit(3);
    assert!(!a.is_dirty);
    assert_eq!(a.changes, None);
    a.set_lowest_price(2);
    assert!(a.is_dirty);
    assert_eq!(a.changes, Some("lowest_price".to_string()));
    a.add_price_history(PriceHistory::new("t", 9));
    assert_eq!(a.changes, Some("price_history".to_string()));
    let e = AuctionDetails::empty();
    assert_eq!(e.lowest_price, None);
}

#[test]
fn trade_and_stock_details() {
    let mut t = TradeDetails::new();
    t.add_price_history(PriceHistory::new("a", 1));
    t.add_price_history(PriceHistory::new("b", 1));
    assert_eq!(t.price_history.len(), 1);
    t.apply_trade_item_info("id1", "Name", "img.png");
    assert_eq!(t.wfm_id, "id1");
    assert_eq!(t.name, "Name");
    assert_eq!(t.image, "img.png");
    let s = StockItemDetails::new(Some(1), Some(2), Some(3), Some(4), Some(5));
    assert_eq!(s.moving_avg, Some(4));
    assert_eq!(s.highest_price, Some(5));
}
