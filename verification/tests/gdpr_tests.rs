use quantframe::number::decimal_whole;
use quantframe::detection::init_detections;
use quantframe::enums::{LogSection, TradeItemType};
use quantframe::export_text::to_date;
use quantframe::gdpr::{
    export_lines, field_value, header_of, purchase_item, purchase_price, trade_entry, GdprParser, GdprSection,
    HeaderMatch,
};
use quantframe::trade::PlayerTrade;
use quantframe::trade::TradeItem;

const EXPORT: &str = "ACCOUNT\nOID : abc123\nEMAIL : me@example.com\nDISPLAY NAME : Tenno\nACTIVATED : 1\nIP : 1.2.3.4\n5.6.7.8\n\nACCOUNT CREATION DATE : 2020-01-02 03:04:05\nLANGUAGE : en\nTRADES : 1\n2024-01-02 03:04:05 UTC\nTRADED ITEMS GIVEN :\nPLATINUM : 25\n\nTRADED ITEMS RECIEVED :\nLegendary Core\n\nLOGINS : 1\n2024-02-01 00:00:00 UTC\nIP : 9.9.9.9\nCLIENT TYPE : pc\nPURCHASES : 1\n2024-03-01 00:00:00 UTC\nshop_item_1\nPREMIUM CREDITS : 75\nITEMS RECIEVED :\nAffinity Booster : 259200\nForma : 2\n\nTRANSACTIONS\n0 :\nSKU : pack\nPRICE : 499\nCURRENCY : USD\nVENDOR : store\nACCOUNT : acc\n";

fn run(text: &str) -> Vec<quantframe::account::Account> {
    let detections = init_detections();
    let d = &detections[0].1;
    let mut p = GdprParser::new();
    for line in export_lines(text) {
        p.step(&line, 7, d);
        if let Some((raw, side)) = p.pending_item.clone() {
            let ty = if raw == "Platinum x 25" { TradeItemType::Platinum } else { TradeItemType::Unknown };
            let item = TradeItem::new(&raw, 1, ty, None);
            let _ = side;
            p.add_resolved_item(item);
        }
        if p.finished_trade.is_some() {
            p.store_trade(&vec![], &vec![]);
        }
    }
    p.finish();
    if p.finished_trade.is_some() {
        assert!(p.store_trade(&vec![], &vec![]));
    }
    p.close()
}

#[test]
fn export_reads_account_details() {
    let accounts = run(EXPORT);
    assert_eq!(accounts.len(), 1);
    let a = &accounts[0];
    assert_eq!(a.oid, "abc123");
    assert_eq!(a.email, "me@example.com");
    assert_eq!(a.display_name, "Tenno");
    assert!(a.activated);
    assert_eq!(a.ips, vec!["1.2.3.4".to_string(), "5.6.7.8".to_string()]);
    assert_eq!(a.account_creation_date, Some(1577934245000));
    assert_eq!(a.language, "en");
}

#[test]
fn export_reads_trades() {
    let accounts = run(EXPORT);
    let a = &accounts[0];
    assert_eq!(a.trades.len(), 1);
    let t = &a.trades[0];
    assert_eq!(t.trade_time, 1704164645000);
    assert_eq!(t.offered_items.len(), 1);
    assert_eq!(t.offered_items[0].raw, "Platinum x 25");
    assert_eq!(t.received_items.len(), 1);
    assert_eq!(t.received_items[0].raw, "Legendary Core (LEGENDARY RANK 0)");
    assert_eq!(t.received_items[0].properties.item_name, Some("Legendary Core (LEGENDARY RANK 0)".to_string()));
}

#[test]
fn export_reads_logins_purchases_transactions() {
    let accounts = run(EXPORT);
    let a = &accounts[0];
    assert_eq!(a.logins.len(), 1);
    assert_eq!(a.logins[0].ip, Some("9.9.9.9".to_string()));
    assert_eq!(a.logins[0].client_type, Some("pc".to_string()));
    assert_eq!(a.purchases.len(), 1);
    let p = &a.purchases[0];
    assert_eq!(p.shop_id, "shop_item_1");
    assert_eq!(p.price, 75);
    assert_eq!(p.items_received.len(), 2);
    assert_eq!(p.items_received[0].name, "Affinity Booster 3 Days");
    assert_eq!(p.items_received[0].quantity, 1);
    assert_eq!(p.items_received[1].name, "Forma");
    assert_eq!(p.items_received[1].quantity, 2);
    assert_eq!(a.transactions.len(), 1);
    let t = &a.transactions[0];
    assert_eq!(t.sku, "pack");
    assert_eq!(t.price, 499);
    assert_eq!(t.currency, "USD");
    assert_eq!(t.vendor, "store");
    assert_eq!(t.account, "acc");
    assert_eq!(t.date, 7);
}

#[test]
fn export_lines_trim_and_drop_final_break() {
    let lines = export_lines("  a \r\nb\n\n");
    assert_eq!(lines, vec!["a".to_string(), "b".to_string(), "".to_string()]);
    assert!(export_lines("").is_empty());
}

#[test]
fn field_value_removes_key() {
    let v: Vec<char> = "OID : x OID : y".chars().collect();
    let r: String = field_value(&v, "OID :").into_iter().collect();
    assert_eq!(r, "x  y");
}

#[test]
fn to_date_parses_or_falls_back() {
    assert_eq!(to_date("2024-01-02 03:04:05 UTC", 0), 1704164645000);
    assert_eq!(to_date("not a date", 42), 42);
}

#[test]
fn resolved_item_goes_to_side() {
    let _ = LogSection::Offered;
}

fn caps(groups: &[Option<&str>]) -> Option<Vec<Option<String>>> {
    Some(groups.iter().map(|g| g.map(|s| s.to_string())).collect())
}

#[test]
fn headers_from_captures() {
    let none = None;
    let hit = caps(&[Some("x")]);
    assert_eq!(header_of(&hit, &none, &none, &none, ""), HeaderMatch::Section(GdprSection::Trades));
    assert_eq!(header_of(&none, &hit, &none, &none, "Stats"), HeaderMatch::Skipped);
    assert_eq!(header_of(&none, &hit, &none, &none, "x"), HeaderMatch::Section(GdprSection::Logins));
    assert_eq!(header_of(&none, &none, &hit, &hit, ""), HeaderMatch::Section(GdprSection::Purchases));
    assert_eq!(header_of(&none, &none, &none, &hit, ""), HeaderMatch::Section(GdprSection::Transactions));
    assert_eq!(header_of(&none, &none, &none, &none, ""), HeaderMatch::NotHeader);
}

#[test]
fn purchase_lines_from_captures() {
    assert_eq!(purchase_price(&caps(&[Some("PREMIUM CREDITS : 75"), Some("75")])), Some(75));
    assert_eq!(purchase_price(&caps(&[Some("PREMIUM CREDITS : x"), Some("x")])), Some(0));
    assert_eq!(purchase_price(&None), None);
    assert_eq!(
        purchase_item(&caps(&[Some("Affinity Booster : 259200"), Some("Affinity Booster"), Some("259200")])),
        Some(("Affinity Booster 3 Days".to_string(), 1))
    );
    assert_eq!(purchase_item(&caps(&[Some("Forma : 2"), Some("Forma "), Some("2")])), Some(("Forma".to_string(), 2)));
    assert_eq!(purchase_item(&caps(&[Some("Forma"), Some("Forma"), None])), Some(("Forma".to_string(), 1)));
    assert_eq!(purchase_item(&None), None);
}

#[test]
fn trade_entries_from_captures() {
    let mut t = PlayerTrade::new(0);
    let e = trade_entry(&mut t, &caps(&[Some("PLATINUM : 25"), Some("PLATINUM"), Some("25")]), "Platinum", "Credits");
    assert_eq!(e, Some("Platinum x 25".to_string()));
    assert_eq!(t.platinum, 25);
    let e = trade_entry(&mut t, &caps(&[Some("Legendary Core"), Some("Legendary Core"), None]), "Platinum", "Credits");
    assert_eq!(e, Some("Legendary Core (LEGENDARY RANK 0)".to_string()));
    let e = trade_entry(&mut t, &caps(&[Some("REGULAR CREDITS : -500"), Some("REGULAR CREDITS"), Some("-500")]), "P", "C");
    assert_eq!(e, Some("C x 500".to_string()));
    assert_eq!(t.credits, 500);
    assert_eq!(trade_entry(&mut t, &None, "P", "C"), None);
    assert_eq!(t.platinum, 25);
}

#[test]
fn transaction_number_starts_a_new_one() {
    let mut p = GdprParser::new();
    assert!(!p.start_transaction(&None, 7));
    assert!(p.start_transaction(&caps(&[Some("0 :"), Some("0")]), 7));
}

#[test]
fn transaction_price_keeps_whole_part() {
    let text = "ACCOUNT\nOID : a\nTRANSACTIONS\n0 :\nPRICE : 4.99\n1 :\nPRICE : -12.5\n2 :\nPRICE : abc\n";
    let accounts = run(text);
    let ts = &accounts[0].transactions;
    assert_eq!(ts.len(), 3);
    assert_eq!(ts[0].price, 4);
    assert_eq!(ts[1].price, -12);
    assert_eq!(ts[2].price, 0);
}

#[test]
fn decimal_whole_parts() {
    let d = |s: &str| decimal_whole(&s.chars().collect());
    assert_eq!(d("4.99"), Some(4));
    assert_eq!(d("+7"), Some(7));
    assert_eq!(d(".5"), Some(0));
    assert_eq!(d("3."), Some(3));
    assert_eq!(d("-0.9"), Some(0));
    assert_eq!(d("99999999999999999999"), Some(i64::MAX));
    assert_eq!(d("-99999999999999999999.1"), Some(i64::MIN));
    assert_eq!(d("."), None);
    assert_eq!(d("1.2.3"), None);
    assert_eq!(d(""), None);
}
