use quantframe::query::{
    paginate, LoginPaginationQueryDto, PaginationQueryDto, PurchasePaginationQueryDto, SortDirection,
    TradePaginationQueryDto, TransactionPaginationQueryDto,
};
use quantframe::records::{Login, Purchase, PurchaseItem, Transaction};
use quantframe::enums::TradeClassification;
use quantframe::trade::PlayerTrade;

fn login(date: i64, ip: Option<&str>) -> Login {
    let mut l = Login::new(date);
    l.ip = ip.map(|s| s.to_string());
    l
}

fn dto(from: Option<i64>, to: Option<i64>, sort_by: Option<&str>, dir: Option<SortDirection>) -> LoginPaginationQueryDto {
    LoginPaginationQueryDto {
        pagination: PaginationQueryDto { page: 1, limit: 10 },
        query: None,
        from_date: from,
        to_date: to,
        sort_by: sort_by.map(|s| s.to_string()),
        sort_direction: dir,
    }
}

#[test]
fn login_query_filters_range() {
    let items = vec![login(1, None), login(2, None), login(3, None), login(4, None)];
    let res = dto(Some(1), Some(3), None, None).apply_query(&items);
    let dates: Vec<i64> = res.iter().map(|l| l.date).collect();
    assert_eq!(dates, vec![2, 3]);
}

#[test]
fn login_query_sorts_stably() {
    let items = vec![login(1, Some("b")), login(2, Some("a")), login(3, None), login(4, Some("a"))];
    let res = dto(None, None, Some("ip"), None).apply_query(&items);
    let dates: Vec<i64> = res.iter().map(|l| l.date).collect();
    assert_eq!(dates, vec![3, 2, 4, 1]);
    let res2 = dto(None, None, Some("ip"), Some(SortDirection::Desc)).apply_query(&items);
    let dates2: Vec<i64> = res2.iter().map(|l| l.date).collect();
    assert_eq!(dates2, vec![1, 2, 4, 3]);
    let res3 = dto(None, None, Some("unknown"), Some(SortDirection::Desc)).apply_query(&items);
    let dates3: Vec<i64> = res3.iter().map(|l| l.date).collect();
    assert_eq!(dates3, vec![1, 2, 3, 4]);
}

#[test]
fn purchase_query_sorts_by_items() {
    let mut a = Purchase::new(10);
    a.items_received.push(PurchaseItem::new("x".to_string(), 1));
    a.items_received.push(PurchaseItem::new("y".to_string(), 1));
    let b = Purchase::new(20);
    let q = PurchasePaginationQueryDto {
        pagination: PaginationQueryDto { page: 1, limit: 10 },
        query: None,
        from_date: None,
        to_date: None,
        sort_by: Some("items_received".to_string()),
        sort_direction: None,
    };
    let res = q.apply_query(&vec![a, b]);
    let dates: Vec<i64> = res.iter().map(|p| p.date).collect();
    assert_eq!(dates, vec![20, 10]);
}

#[test]
fn transaction_query_sorts_by_price_desc() {
    let mut a = Transaction::new(1);
    a.price = 5;
    let mut b = Transaction::new(2);
    b.price = 9;
    let q = TransactionPaginationQueryDto {
        pagination: PaginationQueryDto { page: 1, limit: 10 },
        query: None,
        from_date: None,
        to_date: Some(2),
        sort_by: Some("price".to_string()),
        sort_direction: Some(SortDirection::Desc),
    };
    let res = q.apply_query(&vec![a, b]);
    let prices: Vec<i64> = res.iter().map(|t| t.price).collect();
    assert_eq!(prices, vec![9, 5]);
}

#[test]
fn trade_query_sorts_by_type() {
    let mut a = PlayerTrade::new(1);
    a.trade_type = TradeClassification::Trade;
    let mut b = PlayerTrade::new(2);
    b.trade_type = TradeClassification::Sale;
    let q = TradePaginationQueryDto {
        pagination: PaginationQueryDto { page: 1, limit: 10 },
        query: None,
        from_date: None,
        to_date: None,
        sort_by: Some("trade_type".to_string()),
        sort_direction: None,
    };
    let res = q.apply_query(&vec![a, b]);
    let times: Vec<i64> = res.iter().map(|t| t.trade_time).collect();
    assert_eq!(times, vec![2, 1]);
}

#[test]
fn paginate_pages() {
    let items: Vec<i32> = (1..=7).collect();
    let p = paginate(&items, 2, 3);
    assert_eq!(p.results, vec![4, 5, 6]);
    assert_eq!(p.total, 7);
    assert_eq!(p.total_pages, 3);
    assert_eq!(p.page, 2);
    assert_eq!(p.limit, 3);
    let last = paginate(&items, 3, 3);
    assert_eq!(last.results, vec![7]);
    let past = paginate(&items, 4, 3);
    assert!(past.results.is_empty());
    let all = paginate(&items, 1, -1);
    assert_eq!(all.results, items);
    assert_eq!(all.total_pages, 1);
    let zero = paginate(&items, 1, 0);
    assert!(zero.results.is_empty());
    assert_eq!(zero.total_pages, i64::MAX);
    let empty: Vec<i32> = vec![];
    assert_eq!(paginate(&empty, 1, 0).total_pages, 0);
}
