use quantframe::enums::OrderType;
use quantframe::market::ItemMarketInfo;
use quantframe::riven::{get_filter, Bounds, RivenFilterSettings, StatFilter};
use quantframe::scraper::{
    deferred_deletions, item_error_level, item_tasks, orders_to_delete, priority_order, riven_tick,
    skip_if_no_market_activity, stops_scraper, deletes_orders, fetch_error_level, item_turn, market_error_handling,
    ItemEntry, LogLevel, MarketErrorKind, RivenTick, ScraperState, StockMode, TradeModes, WorkList,
};
use quantframe::trade::SubType;

fn entry(url: &str, sub: Option<SubType>, priority: i64, ops: &[&str]) -> ItemEntry {
    let v: Vec<String> = ops.iter().map(|s| s.to_string()).collect();
    ItemEntry::new(None, None, url, "id", sub, priority, 1, 0, &v, "closed", vec![])
}

fn strings(v: &[&str]) -> Vec<String> {
    v.iter().map(|s| s.to_string()).collect()
}

#[test]
fn entry_keys_and_quantities() {
    let mut e = entry("mod_a", Some(SubType::rank(3)), 0, &["Buy"]);
    assert_eq!(e.uuid(), "mod_a-R3");
    assert_eq!(entry("relic", None, 0, &[]).uuid(), "relic");
    let ayatan = SubType::ayatan(1, 2);
    assert_eq!(ayatan.short_display(), "A1-C2");
    e.set_quantity(OrderType::Sell, 4);
    assert_eq!(e.get_quantity(OrderType::Sell), 4);
    assert_eq!(e.get_quantity(OrderType::Buy), 1);
    e.apply_market_info(ItemMarketInfo::new(1, 9, 8, 3), ItemMarketInfo::empty());
    assert_eq!(e.buy_market_info.volume, 3);
}

#[test]
fn tasks_follow_operations() {
    let mut e = entry("a", None, 0, &["Buy", "Sell"]);
    assert_eq!(item_tasks(&e), (true, false, false));
    e.stock_id = Some(1);
    assert_eq!(item_tasks(&e), (true, false, true));
    let w = entry("b", None, 0, &["Buy", "WishList"]);
    assert_eq!(item_tasks(&w), (false, true, false));
}

#[test]
fn priority_order_is_stable() {
    let v = vec![entry("a", None, 0, &[]), entry("b", None, 2, &[]), entry("c", None, 1, &[]), entry("d", None, 2, &[])];
    assert_eq!(priority_order(&v), vec![1, 3, 2, 0]);
}

#[test]
fn work_list_merges_by_key() {
    let mut w = WorkList::new();
    w.put(entry("a", None, 0, &["Buy"]));
    w.put(entry("b", None, 0, &["Buy"]));
    w.merge(entry("a", None, 1, &["Sell"]), true, 7, 5);
    w.merge(entry("c", None, 2, &["WishList"]), false, 8, 3);
    assert_eq!(w.entries.len(), 3);
    let a = &w.entries[0];
    assert_eq!(a.priority, 1);
    assert_eq!(a.sell_quantity, 5);
    assert_eq!(a.stock_id, Some(7));
    assert!(a.operations.has("Buy") && a.operations.has("Sell"));
    assert_eq!(w.entries[2].wfm_url, "c");
}

#[test]
fn deletions_before_a_pass() {
    let buy = strings(&["b1"]);
    let sell = strings(&["s1", "s2"]);
    let all = TradeModes { buy: true, sell: true, wish_list: true };
    assert_eq!(orders_to_delete(true, true, all, &buy, &sell), strings(&["b1", "s1", "s2"]));
    assert!(orders_to_delete(true, false, all, &buy, &sell).is_empty());
    let buy_wish = TradeModes { buy: true, sell: false, wish_list: true };
    assert_eq!(orders_to_delete(false, false, buy_wish, &buy, &sell), sell);
    let sell_only = TradeModes { buy: false, sell: true, wish_list: false };
    assert_eq!(orders_to_delete(false, false, sell_only, &buy, &sell), buy);
    assert_eq!(deferred_deletions(&strings(&["x", "", "y"]), &strings(&["y", ""])), strings(&["y"]));
}

#[test]
fn market_activity_and_loop() {
    assert_eq!(skip_if_no_market_activity(0, 3), (true, "selling".to_string()));
    assert_eq!(skip_if_no_market_activity(2, 0), (true, "buying".to_string()));
    assert_eq!(skip_if_no_market_activity(2, 3), (false, String::new()));
    assert_eq!(riven_tick(StockMode::Item, 500, 0, 10), RivenTick::Off);
    assert_eq!(riven_tick(StockMode::All, 11, 0, 10), RivenTick::Check);
    assert_eq!(riven_tick(StockMode::Riven, 10, 0, 10), RivenTick::Cooldown(0));
    assert_eq!(riven_tick(StockMode::Riven, 4, 5, 10), RivenTick::Cooldown(6));
    assert_eq!(item_error_level("BadRequest"), LogLevel::Critical);
    assert_eq!(item_error_level("Timeout"), LogLevel::Warning);
    assert!(stops_scraper(LogLevel::Error));
    assert!(!stops_scraper(LogLevel::Warning));
}

#[test]
fn riven_filter_from_settings() {
    let f = RivenFilterSettings {
        enabled: Some(true),
        attributes: Some(vec![
            StatFilter { url_name: "crit".to_string(), positive: true, is_required: true },
            StatFilter { url_name: "zoom".to_string(), positive: false, is_required: true },
            StatFilter { url_name: "speed".to_string(), positive: true, is_required: false },
        ]),
        mastery_rank: Some(Bounds { min: 0, max: Some(16) }),
        re_rolls: Some(Bounds { min: 2, max: None }),
        polarity: Some("madurai".to_string()),
        similarity: None,
    };
    let a = get_filter("soma", &f);
    assert_eq!(a.weapon_url, "soma");
    assert_eq!(a.positive_stats, Some(vec!["crit".to_string()]));
    assert_eq!(a.negative_stats, Some(vec!["zoom".to_string()]));
    assert_eq!(a.mastery_rank_min, None);
    assert_eq!(a.mastery_rank_max, Some(16));
    assert_eq!(a.re_rolls_min, Some(2));
    assert_eq!(a.polarity, Some("madurai".to_string()));
    let off = RivenFilterSettings { enabled: None, ..f };
    let b = get_filter("soma", &off);
    assert_eq!(b.positive_stats, None);
    assert_eq!(b.polarity, None);
}

#[test]
fn entry_builders_set_roles() {
    let b = ItemEntry::for_buying("soma_prime_set", "id1", None, 3);
    assert_eq!((b.priority, b.buy_quantity, b.sell_quantity), (0, 3, 0));
    assert_eq!(b.operations.operations, vec!["Buy".to_string()]);
    assert_eq!(b.order_type, "closed");
    let s = ItemEntry::for_stock(7, "forma", "id2", None, 4);
    assert_eq!((s.stock_id, s.priority, s.sell_quantity), (Some(7), 1, 4));
    assert_eq!(s.operations.operations, vec!["Sell".to_string()]);
    let w = ItemEntry::for_wish_list(9, "lex", "id3", Some(SubType::rank(2)), 5);
    assert_eq!((w.wish_list_id, w.priority, w.buy_quantity), (Some(9), 2, 5));
    assert_eq!(w.order_type, "buy");
    assert_eq!(w.sub_type.as_ref().unwrap().rank, Some(2));
}

#[test]
fn scraper_run_state_and_errors() {
    let mut st = ScraperState::new();
    assert!(st.just_started && !st.is_running);
    assert!(st.start(100));
    assert!(!st.start(200));
    assert_eq!(st.elapsed(160), 60);
    assert_eq!(st.elapsed(50), 0);
    st.pass_done();
    assert!(!st.just_started);
    st.stop();
    assert_eq!(st.elapsed(500), 0);
    assert!(item_turn(StockMode::All));
    assert!(item_turn(StockMode::Item));
    assert!(!item_turn(StockMode::Riven));
    assert!(deletes_orders(false, true));
    assert!(!deletes_orders(false, false));
    assert_eq!(market_error_handling(MarketErrorKind::AuctionLimitExceeded), (LogLevel::Warning, false));
    assert_eq!(market_error_handling(MarketErrorKind::NotFound), (LogLevel::Warning, true));
    assert_eq!(market_error_handling(MarketErrorKind::Other), (LogLevel::Error, false));
    assert_eq!(fetch_error_level(MarketErrorKind::RequestError), LogLevel::Error);
    assert_eq!(fetch_error_level(MarketErrorKind::Other), LogLevel::Critical);
}

#[test]
fn entry_properties_are_carried() {
    let ops = vec!["Buy".to_string()];
    let props = vec![("name".to_string(), "\"Soma\"".to_string())];
    let e = ItemEntry::new(None, None, "soma", "id", None, 0, 1, 0, &ops, "closed", props.clone());
    assert_eq!(e.properties, props);
    let mut w = WorkList::new();
    w.put(e);
    w.merge(entry("soma", None, 1, &["Sell"]), true, 3, 2);
    assert_eq!(w.entries[0].properties, props);
    assert!(ItemEntry::for_buying("x", "y", None, 1).properties.is_empty());
}
