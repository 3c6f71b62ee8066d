use quantframe::account::{apply_item_info, Account};
use quantframe::detection::{init_detections, DetectionStatus, TradeDetection};
use quantframe::enums::{OrderType, TradeClassification, TradeItemType, TradeResult};
use quantframe::notification::{NotificationState, UIEvent};
use quantframe::on_trade::{
    auto_trade_allowed, is_start_of_log, needs_multi_processing, outcome_name_and_quantity, resolve_outcome, trade_item_route, LineEntry,
    OnTradeEvent, TradeRoute, TradeStep,
};
use quantframe::operations::OperationSet;
use quantframe::trade::{PlayerTrade, TradeItem};
use quantframe::trade_text::{item_list_text, TradableName};
use std::sync::Arc;

fn english() -> TradeDetection {
    init_detections().into_iter().next().unwrap().1
}

fn ops(list: &[&str]) -> OperationSet {
    let v: Vec<String> = list.iter().map(|s| s.to_string()).collect();
    OperationSet::from_list(&v)
}

const START: &str = "10.5 Script [Info]: Dialog.lua: Dialog::CreateOkCancel(description=Are you sure you want to accept this trade? You are offering";

#[test]
fn classification_names() {
    assert_eq!(TradeClassification::Sale.to_string(), "sale");
    assert_eq!(TradeClassification::Purchase.display(), "Purchase");
    assert_eq!(TradeClassification::from_name("trade"), Some(TradeClassification::Trade));
    assert_eq!(TradeClassification::from_name("nope"), None);
    assert_eq!(TradeClassification::classify_trade(30, 0, 1, 2), TradeClassification::Purchase);
    assert_eq!(TradeClassification::classify_trade(0, 30, 2, 1), TradeClassification::Sale);
    assert_eq!(TradeClassification::classify_trade(1, 1, 1, 1), TradeClassification::Trade);
    assert_eq!(TradeItemType::ItemSet.to_string(), "Set");
    assert!(TradeResult::Cancelled.was_detected());
    assert!(!TradeResult::Unknown.was_detected());
    assert_eq!(TradeResult::Success.metric_name(), "trade_accepted");
    assert_eq!(UIEvent::RefreshStockItems.as_str(), "LiveScraper:RefreshStockItems");
}

#[test]
fn detection_of_trade_lines() {
    let d = english();
    assert_eq!(d.is_beginning_of_trade(START, "", &[]), DetectionStatus::Line);
    assert_eq!(d.is_end_of_trade("Platinum x 25", START, &[DetectionStatus::Combined]), DetectionStatus::NotFound);
    let ok = "12.0 Script [Info]: Dialog.lua: Dialog::CreateOk(description=The trade was successful!";
    assert_eq!(d.get_trade_result(ok, "", &[]), (DetectionStatus::Line, TradeResult::Success));
    assert!(is_start_of_log("12.0 Script"));
    assert!(!is_start_of_log("Platinum x 25"));
}

#[test]
fn trade_flow_collects_and_settles() {
    let mut ev = OnTradeEvent::new(english(), 0);
    let e1 = LineEntry::new(0, START, "", DetectionStatus::NotFound);
    assert_eq!(ev.process_line(&e1, 100), (true, DetectionStatus::Line, TradeStep::Started));
    assert_eq!(ev.current_trade.trade_time, 100);
    let lines = [
        "Platinum x 25",
        "and will receive from Bob the following:",
        "Forma Blueprint, leftItem=/Menu/Confirm_Item_Ok, rightItem=/Menu/Confirm_Item_Cancel)",
    ];
    let mut prev = START.to_string();
    for (i, l) in lines.iter().enumerate() {
        let e = LineEntry::new(i + 1, l, &prev, DetectionStatus::Line);
        assert_eq!(ev.process_line(&e, 0), (false, DetectionStatus::NotFound, TradeStep::Continue));
        prev = l.to_string();
    }
    assert_eq!(ev.logs.len(), 3);
    let end = LineEntry::new(4, "11.0 Script [Info]: closing", &prev, DetectionStatus::NotFound);
    assert_eq!(ev.process_line(&end, 0), (false, DetectionStatus::Line, TradeStep::Continue));
    assert!(ev.operations.has("WaitingConfirmation"));
    let ok = LineEntry::new(
        5,
        "12.0 Script [Info]: Dialog.lua: Dialog::CreateOk(description=The trade was successful!",
        "11.0 Script [Info]: closing",
        DetectionStatus::NotFound,
    );
    assert_eq!(ev.process_line(&ok, 0), (false, DetectionStatus::NotFound, TradeStep::Ended(TradeResult::Success)));
    let forma = TradeItem::new("/Lotus/Forma", 1, TradeItemType::MainBlueprint, None);
    let catalog = vec![None, None, Some((forma, DetectionStatus::Line))];
    ev.start_process_logs(&catalog);
    assert_eq!(ev.current_trade.player_name, "Bob");
    assert_eq!(ev.current_trade.offered_items.len(), 1);
    assert_eq!(ev.current_trade.offered_items[0].quantity, 25);
    assert_eq!(ev.current_trade.offered_items[0].item_type, TradeItemType::Platinum);
    assert_eq!(ev.current_trade.received_items.len(), 1);
    assert_eq!(ev.current_trade.received_items[0].unique_name, "/Lotus/Forma");
    let res = ev.trade_accepted(&vec![], &vec![]);
    assert_eq!(ev.current_trade.platinum, 25);
    assert_eq!(ev.current_trade.trade_type, TradeClassification::Purchase);
    assert_eq!(res, Some((TradeClassification::Sale, OrderType::Buy)));
    ev.reset(5);
    assert!(ev.logs.is_empty());
    assert_eq!(ev.current_trade.trade_time, 5);
}

#[test]
fn trade_outcome_helpers() {
    let o = ops(&["AutoTrade", "StockRiven_Deleted", "Name: Soma Prime", "Quantity: 3"]);
    assert_eq!(resolve_outcome(&o), (Some(UIEvent::RefreshStockRivens), "success", "green.7"));
    assert_eq!(outcome_name_and_quantity(&o), ("Soma Prime".to_string(), 3));
    assert_eq!(outcome_name_and_quantity(&ops(&[])), ("Unknown Item".to_string(), 0));
    assert!(auto_trade_allowed(&ops(&["Found", "AutoTrade"])));
    assert!(!auto_trade_allowed(&ops(&["AutoTrade"])));
    assert_eq!(trade_item_route(TradeItemType::Imprint), TradeRoute::Transaction);
    assert_eq!(trade_item_route(TradeItemType::RivenUnVeiled), TradeRoute::Riven);
    assert_eq!(trade_item_route(TradeItemType::Mod), TradeRoute::WishListThenStock);
}

#[test]
fn operation_set_records_once() {
    let mut o = OperationSet::new();
    o.add("Buy");
    o.add("Buy");
    o.add("Sell");
    assert_eq!(o.operations, vec!["Buy".to_string(), "Sell".to_string()]);
    o.remove("Buy");
    assert!(!o.has("Buy"));
    assert!(o.ends_with("ell"));
}

#[test]
fn account_stores_named_trade() {
    let mut t = PlayerTrade::new(1);
    let mut plat = TradeItem::new("WFSpecial/Currency/Platinum", 30, TradeItemType::Platinum, None);
    plat.raw = "Platinum x 30".to_string();
    t.offered_items.push(plat);
    let mut item = TradeItem::new("/Lotus/Soma", 1, TradeItemType::Weapon, None);
    item.properties.tags = vec!["primary".to_string()];
    t.received_items.push(item);
    let mut acc = Account::new();
    acc.add_trade(t, &vec![], &vec![]);
    let s = &acc.trades[0];
    assert_eq!(s.trade_type, TradeClassification::Purchase);
    assert_eq!(s.platinum, 30);
    assert_eq!(s.tags, vec!["primary".to_string()]);
    assert_eq!(s.names, vec!["".to_string(), "".to_string()]);
    assert_eq!(s.offered_items[0].properties.item_name, Some("Platinum x 30".to_string()));
    let mut u = PlayerTrade::new(2);
    apply_item_info(&mut u);
    assert!(u.tags.is_empty());
}

#[test]
fn notification_routes_are_created_once() {
    let mut n = NotificationState::new();
    let a = n.discord();
    let b = n.discord();
    assert!(Arc::ptr_eq(&a, &b));
    let g1 = n.gui();
    let g2 = n.gui();
    assert!(Arc::ptr_eq(&g1, &g2));
    let s1 = n.system();
    let s2 = n.system();
    assert!(Arc::ptr_eq(&s1, &s2));
}

#[test]
fn finalizing_twice_changes_nothing() {
    let mut t = PlayerTrade::new(1);
    t.received_items.push(TradeItem::new("WFSpecial/Currency/Platinum", 40, TradeItemType::Platinum, None));
    t.offered_items.push(TradeItem::new("/Lotus/Soma", 1, TradeItemType::Weapon, None));
    t.offered_items.push(TradeItem::new("Credits", 500, TradeItemType::Credits, None));
    t.finalize_trade();
    assert_eq!(t.platinum, 40);
    assert_eq!(t.credits, 500);
    assert_eq!(t.trade_type, TradeClassification::Sale);
    t.finalize_trade();
    assert_eq!(t.platinum, 40);
    assert_eq!(t.credits, 500);
    assert_eq!(t.trade_type, TradeClassification::Sale);
}

#[test]
fn valid_items_skip_unknown_and_excluded() {
    let mut t = PlayerTrade::new(1);
    t.offered_items.push(TradeItem::new("a", 1, TradeItemType::Unknown, None));
    t.offered_items.push(TradeItem::new("b", 1, TradeItemType::Mod, None));
    t.offered_items.push(TradeItem::new("c", 1, TradeItemType::Relic, None));
    let v = t.get_valid_items(TradeClassification::Purchase, vec![TradeItemType::Relic]);
    assert_eq!(v.len(), 1);
    assert_eq!(v[0].unique_name, "b");
    assert!(t.get_valid_items(TradeClassification::Sale, vec![]).is_empty());
}

#[test]
fn notify_variables_of_a_sale() {
    let names = vec![TradableName { unique_name: "/Lotus/Soma".to_string(), name: "Soma Prime".to_string() }];
    let mut t = PlayerTrade::new(1);
    t.player_name = "Bob".to_string();
    t.trade_type = TradeClassification::Sale;
    t.platinum = 40;
    t.offered_items.push(TradeItem::new("/Lotus/Soma", 2, TradeItemType::Weapon, None));
    let mut other = TradeItem::new("/Lotus/Other", 1, TradeItemType::Mod, None);
    other.raw = "Other Mod".to_string();
    t.offered_items.push(other);
    t.offered_items.push(TradeItem::new("x", 1, TradeItemType::Unknown, None));
    t.received_items.push(TradeItem::new("WFSpecial/Currency/Platinum", 40, TradeItemType::Platinum, None));
    let vars = t.get_notify_variables(&names, "2024-01-02 03:04:05");
    let get = |k: &str| vars.iter().find(|(a, _)| a == k).map(|(_, b)| b.clone()).unwrap();
    assert_eq!(vars.len(), 8);
    assert_eq!(get("<TR_TYPE>"), "sale");
    assert_eq!(get("<PLAYER_NAME>"), "Bob");
    assert_eq!(get("<OF_COUNT>"), "3");
    assert_eq!(get("<OF_ITEMS>"), "Soma Prime X2\nOther Mod X1");
    assert_eq!(get("<RE_COUNT>"), "1");
    assert_eq!(get("<TIME>"), "2024-01-02 03:04:05");
    assert_eq!(get("<RE_ITEMS>"), "WFSpecial/Currency/Platinum X40");
    assert_eq!(get("<TOTAL_PLAT>"), "40");
    assert_eq!(item_list_text(&vec![], &names), "");
    assert_eq!(t.offered_items[1].item_name(&names), "Other Mod");
}

#[test]
fn trade_item_and_trade_basics() {
    let d = TradeItem::default_item();
    assert_eq!(d.raw, "N/A");
    assert_eq!(d.quantity, 1);
    assert!(!d.is_valid());
    let m = TradeItem::new("/Lotus/Mod", 1, TradeItemType::Mod, None);
    assert!(m.is_valid());
    let mut t = PlayerTrade::new(1);
    t.trade_type = TradeClassification::Purchase;
    assert!(t.is_purchase() && !t.is_sale());
    let copy = t.set_time(99);
    assert_eq!(t.trade_time, 99);
    assert_eq!(copy.trade_time, 99);
    let mut single = TradeItem::new("/Lotus/Ayatan", 1, TradeItemType::Ayatan, None);
    assert!(!needs_multi_processing(&vec![], &single));
    single.properties.require_sub_type = true;
    assert!(needs_multi_processing(&vec![], &single));
    let two = vec![TradeItem::new("a", 1, TradeItemType::Mod, None), TradeItem::new("b", 1, TradeItemType::Mod, None)];
    assert!(needs_multi_processing(&two, &m));
    assert!(quantframe::is_disabled(-1));
    assert!(!quantframe::is_disabled(0));
}

#[test]
fn offer_line_name_is_clean() {
    let d = english();
    let (name, st) = d.is_offer_line("and will receive from \u{e000}Bob\u{e001}  the following:", "", &[]);
    assert_eq!(st, DetectionStatus::Line);
    assert_eq!(name, "Bob");
    let (text, st2) = d.is_offer_line("Forma Blueprint", "", &[]);
    assert_eq!(st2, DetectionStatus::NotFound);
    assert_eq!(text, "Forma Blueprint");
}

#[test]
fn add_item_raises_total_quantity() {
    let mut ev = OnTradeEvent::new(english(), 0);
    ev.add_item(TradeItem::new("/Lotus/Forma", 2, TradeItemType::MainBlueprint, None));
    ev.add_item(TradeItem::new("/Lotus/Forma", 3, TradeItemType::MainBlueprint, None));
    ev.add_item(TradeItem::new("/Lotus/Other", 1, TradeItemType::Mod, None));
    let side = &ev.current_trade.offered_items;
    assert_eq!(side.len(), 2);
    assert_eq!(side[0].quantity, 5);
    assert_eq!(side.iter().map(|i| i.quantity).sum::<i64>(), 6);
    assert!(ev.current_trade.received_items.is_empty());
}
