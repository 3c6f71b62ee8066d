//! Listing queries over export records and trades: keep the records whose time
//! lies after `from_date` and no later than `to_date`, then order them stably by
//! one of the known columns; and cutting a list into pages.
use vstd::prelude::*;
use crate::enums::TradeClassification;
use crate::records::{Login, LoginView, Purchase, PurchaseView, Transaction, TransactionView};
use crate::sorting::{SortKey, SortKeyView, is_stable_order, keys_view, reorder, stable_order};
use crate::trade::{PlayerTrade, PlayerTradeView, opt_str_view, copy_opt_string};
use crate::enums::classification_rank;

verus! {

/// The direction of a sort.
#[derive(Clone, Copy, Debug, PartialEq, Eq, Structural)]
pub enum SortDirection {
    Asc,
    Desc,
}

/// Which page of how many entries to show.
#[derive(Clone, Copy, Debug, PartialEq, Eq, Structural)]
pub struct PaginationQueryDto {
    pub page: i64,
    pub limit: i64,
}

/// The time lies after `from` (when given) and no later than `to` (when given).
pub open spec fn in_range(date: i64, from: Option<i64>, to: Option<i64>) -> bool {
    (from is None || date > from->0) && (to is None || date <= to->0)
}

/// The indices below `n` whose time is in range, in order.
pub open spec fn kept_upto(dates: Seq<i64>, from: Option<i64>, to: Option<i64>, n: int) -> Seq<usize>
    decreases n,
{
    if n <= 0 {
        Seq::empty()
    } else if in_range(dates[n - 1], from, to) {
        kept_upto(dates, from, to, n - 1).push((n - 1) as usize)
    } else {
        kept_upto(dates, from, to, n - 1)
    }
}

/// `idx` lists the records a query returns: the records in range, then, when a
/// known column is sorted on, in stable order of that column's keys.
pub open spec fn query_spec(
    dates: Seq<i64>,
    from: Option<i64>,
    to: Option<i64>,
    keys: Option<Seq<SortKeyView>>,
    descending: bool,
    idx: Seq<usize>,
) -> bool {
    let kept = kept_upto(dates, from, to, dates.len() as int);
    match keys {
        None => idx == kept,
        Some(k) => exists|o: Seq<usize>| is_stable_order(reorder(k, kept), o, descending) && idx == reorder(kept, o),
    }
}

/// A descending sort.
pub open spec fn is_descending(d: Option<SortDirection>) -> bool {
    d == Some(SortDirection::Desc)
}

proof fn lemma_kept_bounded(dates: Seq<i64>, from: Option<i64>, to: Option<i64>, n: int)
    requires
        0 <= n <= dates.len(),
        dates.len() <= usize::MAX,
    ensures
        forall|k: int| 0 <= k < kept_upto(dates, from, to, n).len() ==> kept_upto(dates, from, to, n)[k] < n,
    decreases n,
{
    if n > 0 {
        lemma_kept_bounded(dates, from, to, n - 1);
        let prev = kept_upto(dates, from, to, n - 1);
        let cur = kept_upto(dates, from, to, n);
        assert forall|k: int| 0 <= k < cur.len() implies cur[k] < n by {
            if k < prev.len() {
                assert(cur[k] == prev[k]);
            }
        }
    }
}

/// A copy of a sort key.
fn copy_key(k: &SortKey) -> (res: SortKey)
    ensures
        res@ == k@,
{
    match k {
        SortKey::Number(n) => SortKey::Number(*n),
        SortKey::Text(t) => SortKey::Text(copy_opt_string(t)),
    }
}

/// The records a query returns, as indices (see `query_spec`). `keys` are the
/// sort keys of all records, `None` when no known column is sorted on.
pub fn query_indices(dates: &Vec<i64>, from: Option<i64>, to: Option<i64>, keys: &Option<Vec<SortKey>>, descending: bool) -> (idx:
    Vec<usize>)
    requires
        keys is Some ==> keys->0.len() == dates.len(),
    ensures
        query_spec(
            dates@,
            from,
            to,
            match *keys {
                Some(k) => Some(keys_view(k@)),
                None => None,
            },
            descending,
            idx@,
        ),
        forall|k: int| 0 <= k < idx.len() ==> idx[k] < dates.len(),
{
    let mut kept: Vec<usize> = Vec::new();
    let mut i: usize = 0;
    while i < dates.len()
        invariant
            i <= dates.len(),
            kept@ == kept_upto(dates@, from, to, i as int),
        decreases dates.len() - i,
    {
        let d = dates[i];
        let keep = (from.is_none() || d > from.unwrap()) && (to.is_none() || d <= to.unwrap());
        if keep {
            kept.push(i);
        }
        i += 1;
    }
    proof {
        lemma_kept_bounded(dates@, from, to, dates.len() as int);
    }
    match keys {
        None => kept,
        Some(all) => {
            let ghost kv = keys_view(all@);
            let mut sub: Vec<SortKey> = Vec::new();
            let mut j: usize = 0;
            while j < kept.len()
                invariant
                    j <= kept.len(),
                    kv == keys_view(all@),
                    all.len() == dates.len(),
                    forall|k: int| 0 <= k < kept.len() ==> kept[k] < dates.len(),
                    keys_view(sub@) == reorder(kv, kept@).subrange(0, j as int),
                decreases kept.len() - j,
            {
                let ghost before = keys_view(sub@);
                let c = copy_key(&all[kept[j]]);
                assert(kv[kept[j as int] as int] == all@[kept[j as int] as int]@);
                sub.push(c);
                assert(keys_view(sub@) =~= before.push(c@));
                assert(keys_view(sub@) =~= reorder(kv, kept@).subrange(0, j + 1));
                j += 1;
            }
            assert(keys_view(sub@) =~= reorder(kv, kept@));
            let o = stable_order(&sub, descending);
            let mut idx: Vec<usize> = Vec::new();
            let mut m: usize = 0;
            while m < o.len()
                invariant
                    m <= o.len(),
                    o.len() == kept.len(),
                    forall|k: int| 0 <= k < o.len() ==> o[k] < kept.len(),
                    forall|k: int| 0 <= k < kept.len() ==> kept[k] < dates.len(),
                    idx@ == reorder(kept@, o@).subrange(0, m as int),
                decreases o.len() - m,
            {
                idx.push(kept[o[m]]);
                assert(idx@ =~= reorder(kept@, o@).subrange(0, m + 1));
                m += 1;
            }
            assert(idx@ =~= reorder(kept@, o@));
            idx
        },
    }
}

/// The contents of logins.
pub open spec fn logins_view(v: Seq<Login>) -> Seq<LoginView> {
    v.map_values(|l: Login| l@)
}

/// The columns logins can be sorted on.
pub open spec fn login_column(c: Seq<char>) -> bool {
    c == "date"@ || c == "ip"@ || c == "client_type"@
}

/// The sort key of a login for a known column.
pub open spec fn login_key(l: LoginView, column: Seq<char>) -> SortKeyView {
    if column == "date"@ {
        SortKeyView::Number(l.date as i128)
    } else if column == "ip"@ {
        SortKeyView::Text(l.ip)
    } else {
        SortKeyView::Text(l.client_type)
    }
}

/// The sort keys of logins for the asked column; `None` when no known column is
/// asked for.
pub open spec fn login_keys(items: Seq<LoginView>, column: Option<Seq<char>>) -> Option<Seq<SortKeyView>> {
    match column {
        Some(c) => if login_column(c) {
            Some(Seq::new(items.len(), |i: int| login_key(items[i], c)))
        } else {
            None
        },
        None => None,
    }
}

/// The times of the records.
pub open spec fn dates_of<T>(items: Seq<T>, date: spec_fn(T) -> i64) -> Seq<i64> {
    Seq::new(items.len(), |i: int| date(items[i]))
}

/// A query over logins.
#[derive(Debug)]
pub struct LoginPaginationQueryDto {
    pub pagination: PaginationQueryDto,
    pub query: Option<String>,
    pub from_date: Option<i64>,
    pub to_date: Option<i64>,
    pub sort_by: Option<String>,
    pub sort_direction: Option<SortDirection>,
}

fn text_key(s: &Option<String>) -> (res: SortKey)
    ensures
        res@ == SortKeyView::Text(opt_str_view(*s)),
{
    SortKey::Text(copy_opt_string(s))
}

fn some_text_key(s: &String) -> (res: SortKey)
    ensures
        res@ == SortKeyView::Text(Some(s@)),
{
    SortKey::Text(Some(s.clone()))
}

/// Whether a string holds the text of a literal.
fn is_column(s: &String, lit: &str) -> (res: bool)
    ensures
        res == (s@ == lit@),
{
    crate::enums::seq_eq(&crate::text::chars_of_string(s), lit)
}

impl LoginPaginationQueryDto {
    /// The logins in range, stably sorted by date, ip or client type when asked.
    pub fn apply_query(&self, items: &Vec<Login>) -> (res: Vec<Login>)
        ensures
            exists|idx: Seq<usize>|
                query_spec(
                    dates_of(logins_view(items@), |l: LoginView| l.date),
                    self.from_date,
                    self.to_date,
                    login_keys(logins_view(items@), opt_str_view(self.sort_by)),
                    is_descending(self.sort_direction),
                    idx,
                ) && logins_view(res@) == reorder(logins_view(items@), idx),
    {
        let ghost iv = logins_view(items@);
        let mut dates: Vec<i64> = Vec::new();
        let mut i: usize = 0;
        while i < items.len()
            invariant
                i <= items.len(),
                iv == logins_view(items@),
                dates@ == dates_of(iv, |l: LoginView| l.date).subrange(0, i as int),
            decreases items.len() - i,
        {
            dates.push(items[i].date);
            assert(dates@ =~= dates_of(iv, |l: LoginView| l.date).subrange(0, i + 1));
            i += 1;
        }
        assert(dates@ =~= dates_of(iv, |l: LoginView| l.date));
        let keys: Option<Vec<SortKey>> = match &self.sort_by {
            None => None,
            Some(col) => {
                let which: u8 = if is_column(col, "date") {
                    0
                } else if is_column(col, "ip") {
                    1
                } else if is_column(col, "client_type") {
                    2
                } else {
                    3
                };
                if which == 3 {
                    None
                } else {
                    let mut ks: Vec<SortKey> = Vec::new();
                    let mut j: usize = 0;
                    while j < items.len()
                        invariant
                            j <= items.len(),
                            iv == logins_view(items@),
                            which < 3,
                            which == 0 ==> col@ == "date"@,
                            which == 1 ==> col@ == "ip"@ && col@ != "date"@,
                            which == 2 ==> col@ == "client_type"@ && col@ != "date"@ && col@ != "ip"@,
                            keys_view(ks@) == Seq::new(items.len() as nat, |k: int| login_key(iv[k], col@)).subrange(0, j as int),
                        decreases items.len() - j,
                    {
                        let k = if which == 0 {
                            SortKey::Number(items[j].date as i128)
                        } else if which == 1 {
                            text_key(&items[j].ip)
                        } else {
                            text_key(&items[j].client_type)
                        };
                        assert(iv[j as int] == items@[j as int]@);
                        let ghost before = keys_view(ks@);
                        assert(k@ == login_key(iv[j as int], col@));
                        ks.push(k);
                        assert(keys_view(ks@) =~= before.push(k@));
                        assert(keys_view(ks@) =~= Seq::new(items.len() as nat, |k: int| login_key(iv[k], col@)).subrange(0, j + 1));
                        j += 1;
                    }
                    assert(keys_view(ks@) =~= Seq::new(items.len() as nat, |k: int| login_key(iv[k], col@)));
                    Some(ks)
                }
            },
        };
        let desc = match self.sort_direction {
            Some(SortDirection::Desc) => true,
            _ => false,
        };
        let idx = query_indices(&dates, self.from_date, self.to_date, &keys, desc);
        let mut res: Vec<Login> = Vec::new();
        let mut m: usize = 0;
        while m < idx.len()
            invariant
                m <= idx.len(),
                iv == logins_view(items@),
                forall|k: int| 0 <= k < idx.len() ==> idx[k] < items.len(),
                logins_view(res@) == reorder(iv, idx@).subrange(0, m as int),
            decreases idx.len() - m,
        {
            let ghost before = logins_view(res@);
            let l = items[idx[m]].duplicate();
            assert(iv[idx[m as int] as int] == items@[idx[m as int] as int]@);
            res.push(l);
            assert(logins_view(res@) =~= before.push(l@));
            assert(logins_view(res@) =~= reorder(iv, idx@).subrange(0, m + 1));
            m += 1;
        }
        assert(logins_view(res@) =~= reorder(iv, idx@));
        res
    }
}

/// The contents of purchases.
pub open spec fn purchases_view(v: Seq<Purchase>) -> Seq<PurchaseView> {
    v.map_values(|x: Purchase| x@)
}

/// The columns purchases can be sorted on.
pub open spec fn purchase_column(c: Seq<char>) -> bool {
    c == "shop_id"@ || c == "date"@ || c == "price"@ || c == "items_received"@
}

/// The sort key of a purchase for a known column.
pub open spec fn purchase_key(x: PurchaseView, column: Seq<char>) -> SortKeyView {
    if column == "shop_id"@ {
        SortKeyView::Text(Some(x.shop_id))
    } else if column == "date"@ {
        SortKeyView::Number(x.date as i128)
    } else if column == "price"@ {
        SortKeyView::Number(x.price as i128)
    } else {
        SortKeyView::Number(x.items_received.len() as i128)
    }
}

/// The sort keys of purchases for the asked column; `None` when no known column is
/// asked for.
pub open spec fn purchase_keys(items: Seq<PurchaseView>, column: Option<Seq<char>>) -> Option<Seq<SortKeyView>> {
    match column {
        Some(c) => if purchase_column(c) {
            Some(Seq::new(items.len(), |i: int| purchase_key(items[i], c)))
        } else {
            None
        },
        None => None,
    }
}

/// A query over purchases.
#[derive(Debug)]
pub struct PurchasePaginationQueryDto {
    pub pagination: PaginationQueryDto,
    pub query: Option<String>,
    pub from_date: Option<i64>,
    pub to_date: Option<i64>,
    pub sort_by: Option<String>,
    pub sort_direction: Option<SortDirection>,
}

impl PurchasePaginationQueryDto {
    /// The purchases in range, stably sorted by a known column when asked.
    pub fn apply_query(&self, items: &Vec<Purchase>) -> (res: Vec<Purchase>)
        ensures
            exists|idx: Seq<usize>|
                query_spec(
                    dates_of(purchases_view(items@), |x: PurchaseView| x.date),
                    self.from_date,
                    self.to_date,
                    purchase_keys(purchases_view(items@), opt_str_view(self.sort_by)),
                    is_descending(self.sort_direction),
                    idx,
                ) && purchases_view(res@) == reorder(purchases_view(items@), idx),
    {
        let ghost iv = purchases_view(items@);
        let mut dates: Vec<i64> = Vec::new();
        let mut i: usize = 0;
        while i < items.len()
            invariant
                i <= items.len(),
                iv == purchases_view(items@),
                dates@ == dates_of(iv, |x: PurchaseView| x.date).subrange(0, i as int),
            decreases items.len() - i,
        {
            dates.push(items[i].date);
            assert(dates@ =~= dates_of(iv, |x: PurchaseView| x.date).subrange(0, i + 1));
            i += 1;
        }
        assert(dates@ =~= dates_of(iv, |x: PurchaseView| x.date));
        let keys: Option<Vec<SortKey>> = match &self.sort_by {
            None => None,
            Some(col) => {
                let which: u8 = if is_column(col, "shop_id") {
                    0
                } else if is_column(col, "date") {
                    1
                } else if is_column(col, "price") {
                    2
                } else if is_column(col, "items_received") {
                    3
                } else {
                    4
                };
                if which == 4 {
                    None
                } else {
                    let mut ks: Vec<SortKey> = Vec::new();
                    let mut j: usize = 0;
                    while j < items.len()
                        invariant
                            j <= items.len(),
                            iv == purchases_view(items@),
                            which < 4,
                            which == 0 ==> col@ == "shop_id"@,
                            which == 1 ==> col@ == "date"@ && col@ != "shop_id"@,
                            which == 2 ==> col@ == "price"@ && col@ != "shop_id"@ && col@ != "date"@,
                            which == 3 ==> col@ == "items_received"@ && col@ != "shop_id"@ && col@ != "date"@ && col@ != "price"@,
                            keys_view(ks@) == Seq::new(items.len() as nat, |k: int| purchase_key(iv[k], col@)).subrange(0, j as int),
                        decreases items.len() - j,
                    {
                        let x = &items[j];
                        let k = if which == 0 {
                            some_text_key(&x.shop_id)
                        } else if which == 1 {
                            SortKey::Number(x.date as i128)
                        } else if which == 2 {
                            SortKey::Number(x.price as i128)
                        } else {
                            SortKey::Number(x.items_received.len() as i128)
                        };
                        assert(iv[j as int] == items@[j as int]@);
                        let ghost before = keys_view(ks@);
                        assert(k@ == purchase_key(iv[j as int], col@));
                        ks.push(k);
                        assert(keys_view(ks@) =~= before.push(k@));
                        assert(keys_view(ks@) =~= Seq::new(items.len() as nat, |k: int| purchase_key(iv[k], col@)).subrange(0, j + 1));
                        j += 1;
                    }
                    assert(keys_view(ks@) =~= Seq::new(items.len() as nat, |k: int| purchase_key(iv[k], col@)));
                    Some(ks)
                }
            },
        };
        let desc = match self.sort_direction {
            Some(SortDirection::Desc) => true,
            _ => false,
        };
        let idx = query_indices(&dates, self.from_date, self.to_date, &keys, desc);
        let mut res: Vec<Purchase> = Vec::new();
        let mut m: usize = 0;
        while m < idx.len()
            invariant
                m <= idx.len(),
                iv == purchases_view(items@),
                forall|k: int| 0 <= k < idx.len() ==> idx[k] < items.len(),
                purchases_view(res@) == reorder(iv, idx@).subrange(0, m as int),
            decreases idx.len() - m,
        {
            let ghost before = purchases_view(res@);
            let x = items[idx[m]].duplicate();
            assert(iv[idx[m as int] as int] == items@[idx[m as int] as int]@);
            res.push(x);
            assert(purchases_view(res@) =~= before.push(x@));
            assert(purchases_view(res@) =~= reorder(iv, idx@).subrange(0, m + 1));
            m += 1;
        }
        assert(purchases_view(res@) =~= reorder(iv, idx@));
        res
    }
}

/// The contents of transactions.
pub open spec fn transactions_view(v: Seq<Transaction>) -> Seq<TransactionView> {
    v.map_values(|x: Transaction| x@)
}

/// The columns transactions can be sorted on.
pub open spec fn transaction_column(c: Seq<char>) -> bool {
    c == "sku"@ || c == "price"@ || c == "currency"@ || c == "vendor"@ || c == "date"@ || c == "account"@
}

/// The sort key of a transaction for a known column.
pub open spec fn transaction_key(x: TransactionView, column: Seq<char>) -> SortKeyView {
    if column == "sku"@ {
        SortKeyView::Text(Some(x.sku))
    } else if column == "price"@ {
        SortKeyView::Number(x.price as i128)
    } else if column == "currency"@ {
        SortKeyView::Text(Some(x.currency))
    } else if column == "vendor"@ {
        SortKeyView::Text(Some(x.vendor))
    } else if column == "date"@ {
        SortKeyView::Number(x.date as i128)
    } else {
        SortKeyView::Text(Some(x.account))
    }
}

/// The sort keys of transactions for the asked column; `None` when no known column is
/// asked for.
pub open spec fn transaction_keys(items: Seq<TransactionView>, column: Option<Seq<char>>) -> Option<Seq<SortKeyView>> {
    match column {
        Some(c) => if transaction_column(c) {
            Some(Seq::new(items.len(), |i: int| transaction_key(items[i], c)))
        } else {
            None
        },
        None => None,
    }
}

/// A query over transactions.
#[derive(Debug)]
pub struct TransactionPaginationQueryDto {
    pub pagination: PaginationQueryDto,
    pub query: Option<String>,
    pub from_date: Option<i64>,
    pub to_date: Option<i64>,
    pub sort_by: Option<String>,
    pub sort_direction: Option<SortDirection>,
}

impl TransactionPaginationQueryDto {
    /// The transactions in range, stably sorted by a known column when asked.
    pub fn apply_query(&self, items: &Vec<Transaction>) -> (res: Vec<Transaction>)
        ensures
            exists|idx: Seq<usize>|
                query_spec(
                    dates_of(transactions_view(items@), |x: TransactionView| x.date),
                    self.from_date,
                    self.to_date,
                    transaction_keys(transactions_view(items@), opt_str_view(self.sort_by)),
                    is_descending(self.sort_direction),
                    idx,
                ) && transactions_view(res@) == reorder(transactions_view(items@), idx),
    {
        let ghost iv = transactions_view(items@);
        let mut dates: Vec<i64> = Vec::new();
        let mut i: usize = 0;
        while i < items.len()
            invariant
                i <= items.len(),
                iv == transactions_view(items@),
                dates@ == dates_of(iv, |x: TransactionView| x.date).subrange(0, i as int),
            decreases items.len() - i,
        {
            dates.push(items[i].date);
            assert(dates@ =~= dates_of(iv, |x: TransactionView| x.date).subrange(0, i + 1));
            i += 1;
        }
        assert(dates@ =~= dates_of(iv, |x: TransactionView| x.date));
        let keys: Option<Vec<SortKey>> = match &self.sort_by {
            None => None,
            Some(col) => {
                let which: u8 = if is_column(col, "sku") {
                    0
                } else if is_column(col, "price") {
                    1
                } else if is_column(col, "currency") {
                    2
                } else if is_column(col, "vendor") {
                    3
                } else if is_column(col, "date") {
                    4
                } else if is_column(col, "account") {
                    5
                } else {
                    6
                };
                if which == 6 {
                    None
                } else {
                    let mut ks: Vec<SortKey> = Vec::new();
                    let mut j: usize = 0;
                    while j < items.len()
                        invariant
                            j <= items.len(),
                            iv == transactions_view(items@),
                            which < 6,
                            which == 0 ==> col@ == "sku"@,
                            which == 1 ==> col@ == "price"@ && col@ != "sku"@,
                            which == 2 ==> col@ == "currency"@ && col@ != "sku"@ && col@ != "price"@,
                            which == 3 ==> col@ == "vendor"@ && col@ != "sku"@ && col@ != "price"@ && col@ != "currency"@,
                            which == 4 ==> col@ == "date"@ && col@ != "sku"@ && col@ != "price"@ && col@ != "currency"@ && col@ != "vendor"@,
                            which == 5 ==> col@ == "account"@ && col@ != "sku"@ && col@ != "price"@ && col@ != "currency"@ && col@ != "vendor"@ && col@ != "date"@,
                            keys_view(ks@) == Seq::new(items.len() as nat, |k: int| transaction_key(iv[k], col@)).subrange(0, j as int),
                        decreases items.len() - j,
                    {
                        let x = &items[j];
                        let k = if which == 0 {
                            some_text_key(&x.sku)
                        } else if which == 1 {
                            SortKey::Number(x.price as i128)
                        } else if which == 2 {
                            some_text_key(&x.currency)
                        } else if which == 3 {
                            some_text_key(&x.vendor)
                        } else if which == 4 {
                            SortKey::Number(x.date as i128)
                        } else {
                            some_text_key(&x.account)
                        };
                        assert(iv[j as int] == items@[j as int]@);
                        let ghost before = keys_view(ks@);
                        assert(k@ == transaction_key(iv[j as int], col@));
                        ks.push(k);
                        assert(keys_view(ks@) =~= before.push(k@));
                        assert(keys_view(ks@) =~= Seq::new(items.len() as nat, |k: int| transaction_key(iv[k], col@)).subrange(0, j + 1));
                        j += 1;
                    }
                    assert(keys_view(ks@) =~= Seq::new(items.len() as nat, |k: int| transaction_key(iv[k], col@)));
                    Some(ks)
                }
            },
        };
        let desc = match self.sort_direction {
            Some(SortDirection::Desc) => true,
            _ => false,
        };
        let idx = query_indices(&dates, self.from_date, self.to_date, &keys, desc);
        let mut res: Vec<Transaction> = Vec::new();
        let mut m: usize = 0;
        while m < idx.len()
            invariant
                m <= idx.len(),
                iv == transactions_view(items@),
                forall|k: int| 0 <= k < idx.len() ==> idx[k] < items.len(),
                transactions_view(res@) == reorder(iv, idx@).subrange(0, m as int),
            decreases idx.len() - m,
        {
            let ghost before = transactions_view(res@);
            let x = items[idx[m]].duplicate();
            assert(iv[idx[m as int] as int] == items@[idx[m as int] as int]@);
            res.push(x);
            assert(transactions_view(res@) =~= before.push(x@));
            assert(transactions_view(res@) =~= reorder(iv, idx@).subrange(0, m + 1));
            m += 1;
        }
        assert(transactions_view(res@) =~= reorder(iv, idx@));
        res
    }
}

/// The contents of trades.
pub open spec fn trades_view(v: Seq<PlayerTrade>) -> Seq<PlayerTradeView> {
    v.map_values(|x: PlayerTrade| x@)
}

/// The columns trades can be sorted on.
pub open spec fn trade_column(c: Seq<char>) -> bool {
    c == "trade_time"@ || c == "platinum"@ || c == "credits"@ || c == "trade_type"@
}

/// The sort key of a trade for a known column.
pub open spec fn trade_key(x: PlayerTradeView, column: Seq<char>) -> SortKeyView {
    if column == "trade_time"@ {
        SortKeyView::Number(x.trade_time as i128)
    } else if column == "platinum"@ {
        SortKeyView::Number(x.platinum as i128)
    } else if column == "credits"@ {
        SortKeyView::Number(x.credits as i128)
    } else {
        SortKeyView::Number(classification_rank(x.trade_type) as i128)
    }
}

/// The sort keys of trades for the asked column; `None` when no known column is
/// asked for.
pub open spec fn trade_keys(items: Seq<PlayerTradeView>, column: Option<Seq<char>>) -> Option<Seq<SortKeyView>> {
    match column {
        Some(c) => if trade_column(c) {
            Some(Seq::new(items.len(), |i: int| trade_key(items[i], c)))
        } else {
            None
        },
        None => None,
    }
}

/// A query over trades.
#[derive(Debug)]
pub struct TradePaginationQueryDto {
    pub pagination: PaginationQueryDto,
    pub query: Option<String>,
    pub from_date: Option<i64>,
    pub to_date: Option<i64>,
    pub sort_by: Option<String>,
    pub sort_direction: Option<SortDirection>,
}

impl TradePaginationQueryDto {
    /// The trades in range, stably sorted by a known column when asked.
    pub fn apply_query(&self, items: &Vec<PlayerTrade>) -> (res: Vec<PlayerTrade>)
        ensures
            exists|idx: Seq<usize>|
                query_spec(
                    dates_of(trades_view(items@), |x: PlayerTradeView| x.trade_time),
                    self.from_date,
                    self.to_date,
                    trade_keys(trades_view(items@), opt_str_view(self.sort_by)),
                    is_descending(self.sort_direction),
                    idx,
                ) && trades_view(res@) == reorder(trades_view(items@), idx),
    {
        let ghost iv = trades_view(items@);
        let mut dates: Vec<i64> = Vec::new();
        let mut i: usize = 0;
        while i < items.len()
            invariant
                i <= items.len(),
                iv == trades_view(items@),
                dates@ == dates_of(iv, |x: PlayerTradeView| x.trade_time).subrange(0, i as int),
            decreases items.len() - i,
        {
            dates.push(items[i].trade_time);
            assert(dates@ =~= dates_of(iv, |x: PlayerTradeView| x.trade_time).subrange(0, i + 1));
            i += 1;
        }
        assert(dates@ =~= dates_of(iv, |x: PlayerTradeView| x.trade_time));
        let keys: Option<Vec<SortKey>> = match &self.sort_by {
            None => None,
            Some(col) => {
                let which: u8 = if is_column(col, "trade_time") {
                    0
                } else if is_column(col, "platinum") {
                    1
                } else if is_column(col, "credits") {
                    2
                } else if is_column(col, "trade_type") {
                    3
                } else {
                    4
                };
                if which == 4 {
                    None
                } else {
                    let mut ks: Vec<SortKey> = Vec::new();
                    let mut j: usize = 0;
                    while j < items.len()
                        invariant
                            j <= items.len(),
                            iv == trades_view(items@),
                            which < 4,
                            which == 0 ==> col@ == "trade_time"@,
                            which == 1 ==> col@ == "platinum"@ && col@ != "trade_time"@,
                            which == 2 ==> col@ == "credits"@ && col@ != "trade_time"@ && col@ != "platinum"@,
                            which == 3 ==> col@ == "trade_type"@ && col@ != "trade_time"@ && col@ != "platinum"@ && col@ != "credits"@,
                            keys_view(ks@) == Seq::new(items.len() as nat, |k: int| trade_key(iv[k], col@)).subrange(0, j as int),
                        decreases items.len() - j,
                    {
                        let x = &items[j];
                        let k = if which == 0 {
                            SortKey::Number(x.trade_time as i128)
                        } else if which == 1 {
                            SortKey::Number(x.platinum as i128)
                        } else if which == 2 {
                            SortKey::Number(x.credits as i128)
                        } else {
                            SortKey::Number(x.trade_type.rank() as i128)
                        };
                        assert(iv[j as int] == items@[j as int]@);
                        let ghost before = keys_view(ks@);
                        assert(k@ == trade_key(iv[j as int], col@));
                        ks.push(k);
                        assert(keys_view(ks@) =~= before.push(k@));
                        assert(keys_view(ks@) =~= Seq::new(items.len() as nat, |k: int| trade_key(iv[k], col@)).subrange(0, j + 1));
                        j += 1;
                    }
                    assert(keys_view(ks@) =~= Seq::new(items.len() as nat, |k: int| trade_key(iv[k], col@)));
                    Some(ks)
                }
            },
        };
        let desc = match self.sort_direction {
            Some(SortDirection::Desc) => true,
            _ => false,
        };
        let idx = query_indices(&dates, self.from_date, self.to_date, &keys, desc);
        let mut res: Vec<PlayerTrade> = Vec::new();
        let mut m: usize = 0;
        while m < idx.len()
            invariant
                m <= idx.len(),
                iv == trades_view(items@),
                forall|k: int| 0 <= k < idx.len() ==> idx[k] < items.len(),
                trades_view(res@) == reorder(iv, idx@).subrange(0, m as int),
            decreases idx.len() - m,
        {
            let ghost before = trades_view(res@);
            let x = items[idx[m]].duplicate();
            assert(iv[idx[m as int] as int] == items@[idx[m as int] as int]@);
            res.push(x);
            assert(trades_view(res@) =~= before.push(x@));
            assert(trades_view(res@) =~= reorder(iv, idx@).subrange(0, m + 1));
            m += 1;
        }
        assert(trades_view(res@) =~= reorder(iv, idx@));
        res
    }
}

/// One page of a list, with where it stands in the whole.
#[derive(Debug)]
pub struct PaginatedResult<T> {
    pub results: Vec<T>,
    pub page: i64,
    pub limit: i64,
    pub total: i64,
    pub total_pages: i64,
}

/// Where a page starts: the entries before it (the page number, counted from 1,
/// saturating at the bottom, minus one, times the page size).
pub open spec fn page_start(page: i64, per_page: i64) -> int {
    let before: int = if page - 1 < i64::MIN { i64::MIN as int } else { page - 1 };
    before * per_page
}

/// Where a page ends: its start plus the page size, at most the total.
pub open spec fn page_end(page: i64, per_page: i64, total: int) -> int {
    let e = page_start(page, per_page) + per_page;
    if e < total {
        e
    } else {
        total
    }
}

/// The page holds entries: it starts before the end of the list and ends after
/// its beginning.
pub open spec fn page_in_list(page: i64, per_page: i64, total: int) -> bool {
    page_start(page, per_page) < total && page_end(page, per_page, total) > 0
}

/// The number of pages: 1 for a page size of -1; otherwise the total divided by
/// the page size, rounded up (no entries over a page size of 0 give 0 pages,
/// some give the largest number).
pub open spec fn total_pages_spec(total: int, per_page: int) -> int {
    if per_page == -1 {
        1
    } else if per_page > 0 {
        (total + per_page - 1) / per_page
    } else if per_page == 0 {
        if total > 0 {
            i64::MAX as int
        } else {
            0
        }
    } else {
        -(total / (-per_page))
    }
}

/// With a positive page size, the number of pages is the least number of pages
/// of that size that hold every entry: none for no entries, and otherwise
/// enough pages to hold them all, one fewer not being enough.
pub proof fn lemma_total_pages_least(total: int, per_page: int)
    requires
        total >= 0,
        per_page > 0,
    ensures
        ({
            let n = total_pages_spec(total, per_page);
            &&& n >= 0
            &&& n * per_page >= total
            &&& (total == 0 ==> n == 0)
            &&& (total > 0 ==> (n - 1) * per_page < total)
        }),
{
    let n = total_pages_spec(total, per_page);
    assert(n == (total + per_page - 1) / per_page);
    assert(n >= 0 && n * per_page >= total && (n - 1) * per_page < total) by (nonlinear_arith)
        requires
            n == (total + per_page - 1) / per_page,
            total >= 0,
            per_page > 0,
    {
        assert(per_page * n <= total + per_page - 1);
        assert(total + per_page - 1 < per_page * n + per_page);
    }
    if total == 0 {
        assert(n == 0) by (nonlinear_arith)
            requires
                n == (per_page - 1) / per_page,
                per_page > 0,
        {
        }
    }
}

/// The page of `items` with the given number and size: the entries from the
/// page's start to its end when it lies in the list; every entry for a page size
/// of -1; otherwise none.
pub fn paginate<T: Clone>(items: &[T], page: i64, per_page: i64) -> (res: PaginatedResult<T>)
    requires
        items@.len() < 0x20_0000_0000_0000,
        i64::MIN <= page_start(page, per_page) <= i64::MAX,
        i64::MIN <= page_start(page, per_page) + per_page <= i64::MAX,
        page_in_list(page, per_page, items@.len() as int) ==> 0 <= page_start(page, per_page) <= page_end(
            page,
            per_page,
            items@.len() as int,
        ),
    ensures
        res.page == page,
        res.limit == per_page,
        res.total == items@.len(),
        res.total_pages == total_pages_spec(items@.len() as int, per_page as int),
        page_in_list(page, per_page, items@.len() as int) ==> {
            &&& res.results@.len() == page_end(page, per_page, items@.len() as int) - page_start(page, per_page)
            &&& forall|k: int|
                0 <= k < res.results@.len() ==> cloned(items@[page_start(page, per_page) + k], #[trigger] res.results@[k])
        },
        !page_in_list(page, per_page, items@.len() as int) && per_page == -1 ==> {
            &&& res.results@.len() == items@.len()
            &&& forall|k: int| 0 <= k < res.results@.len() ==> cloned(items@[k], #[trigger] res.results@[k])
        },
        !page_in_list(page, per_page, items@.len() as int) && per_page != -1 ==> res.results@.len() == 0,
{
    let total_items = items.len() as i64;
    let before: i64 = if page == i64::MIN { i64::MIN } else { page - 1 };
    let start = before * per_page;
    let end = if start + per_page < total_items {
        start + per_page
    } else {
        total_items
    };
    let mut results: Vec<T> = Vec::new();
    let (from, to) = if start < total_items && end > 0 {
        (start as usize, end as usize)
    } else if per_page == -1 {
        (0usize, items.len())
    } else {
        (0usize, 0usize)
    };
    let mut i = from;
    while i < to
        invariant
            from <= i <= to <= items@.len(),
            results@.len() == i - from,
            forall|k: int| 0 <= k < results@.len() ==> cloned(items@[from + k], #[trigger] results@[k]),
        decreases to - i,
    {
        let c = items[i].clone();
        results.push(c);
        i += 1;
    }
    let total_pages: i64 = if per_page == -1 {
        1
    } else if per_page > 0 {
        let t = total_items as i128;
        let p = per_page as i128;
        let q = (t + p - 1) / p;
        assert(0 <= q <= t + 1) by (nonlinear_arith)
            requires
                p >= 1,
                t >= 0,
                q == (t + p - 1) as int / p as int,
        ;
        q as i64
    } else if per_page == 0 {
        if total_items > 0 {
            i64::MAX
        } else {
            0
        }
    } else {
        let t = total_items as i128;
        let p = -(per_page as i128);
        let q = t / p;
        assert(0 <= q <= t) by (nonlinear_arith)
            requires
                p >= 1,
                t >= 0,
                q == t as int / p as int,
        ;
        (-q) as i64
    };
    PaginatedResult { results, page, limit: per_page, total: total_items, total_pages }
}

proof fn lemma_kept_exact(dates: Seq<i64>, from: Option<i64>, to: Option<i64>, n: int)
    requires
        0 <= n <= dates.len(),
        dates.len() <= usize::MAX,
    ensures
        forall|k: int| 0 <= k < kept_upto(dates, from, to, n).len() ==> {
            let v = #[trigger] kept_upto(dates, from, to, n)[k];
            v < n && in_range(dates[v as int], from, to)
        },
        forall|i: int| 0 <= i < n && in_range(dates[i], from, to) ==> kept_upto(dates, from, to, n).contains(i as usize),
        kept_upto(dates, from, to, n).len() <= n,
    decreases n,
{
    if n > 0 {
        lemma_kept_exact(dates, from, to, n - 1);
        let prev = kept_upto(dates, from, to, n - 1);
        let cur = kept_upto(dates, from, to, n);
        assert forall|k: int| 0 <= k < cur.len() implies {
            let v = #[trigger] cur[k];
            v < n && in_range(dates[v as int], from, to)
        } by {
            if k < prev.len() {
                assert(cur[k] == prev[k]);
            }
        }
        assert forall|i: int| 0 <= i < n && in_range(dates[i], from, to) implies cur.contains(i as usize) by {
            if i < n - 1 {
                let j = choose|j: int| 0 <= j < prev.len() && prev[j] == i as usize;
                assert(cur[j] == i as usize);
            } else {
                assert(cur[prev.len() as int] == i as usize);
            }
        }
    }
}

/// A query returns exactly the records whose time is in range, each once, and
/// with a sorted column, in that column's order.
pub proof fn lemma_query_result(
    dates: Seq<i64>,
    from: Option<i64>,
    to: Option<i64>,
    keys: Option<Seq<SortKeyView>>,
    descending: bool,
    idx: Seq<usize>,
)
    requires
        dates.len() <= usize::MAX,
        keys is Some ==> keys->0.len() == dates.len(),
        query_spec(dates, from, to, keys, descending, idx),
    ensures
        forall|k: int| 0 <= k < idx.len() ==> idx[k] < dates.len() && in_range(dates[idx[k] as int], from, to),
        forall|i: int| 0 <= i < dates.len() && in_range(dates[i], from, to) ==> idx.contains(i as usize),
        forall|a: int, b: int| 0 <= a < b < idx.len() ==> idx[a] != idx[b],
        keys matches Some(k) ==> forall|a: int, b: int|
            0 <= a < b < idx.len() ==> crate::sorting::dir_le(k[idx[a] as int], k[idx[b] as int], descending),
{
    let n = dates.len() as int;
    lemma_kept_exact(dates, from, to, n);
    let kept = kept_upto(dates, from, to, n);
    lemma_kept_strictly_increasing(dates, from, to, n);
    match keys {
        None => {},
        Some(k) => {
            let o = choose|o: Seq<usize>| is_stable_order(reorder(k, kept), o, descending) && idx == reorder(kept, o);
            assert forall|x: int| 0 <= x < idx.len() implies idx[x] < dates.len() && in_range(dates[idx[x] as int], from, to) by {
                assert(idx[x] == kept[o[x] as int]);
            }
            assert forall|i: int| 0 <= i < dates.len() && in_range(dates[i], from, to) implies idx.contains(i as usize) by {
                let j = choose|j: int| 0 <= j < kept.len() && kept[j] == i as usize;
                assert(reorder(k, kept).len() == kept.len());
                assert((j as usize) < kept.len());
                assert(o.contains(j as usize));
                let m = choose|m: int| 0 <= m < o.len() && o[m] == j as usize;
                assert(idx[m] == i as usize);
            }
            assert forall|a: int, b: int| 0 <= a < b < idx.len() implies idx[a] != idx[b] by {
                assert(o[a] != o[b]);
                assert(idx[a] == kept[o[a] as int] && idx[b] == kept[o[b] as int]);
            }
            assert forall|a: int, b: int| 0 <= a < b < idx.len() implies crate::sorting::dir_le(
                k[idx[a] as int],
                k[idx[b] as int],
                descending,
            ) by {
                let rk = reorder(k, kept);
                assert(crate::sorting::dir_le(rk[o[a] as int], rk[o[b] as int], descending));
            }
        },
    }
}

proof fn lemma_kept_strictly_increasing(dates: Seq<i64>, from: Option<i64>, to: Option<i64>, n: int)
    requires
        0 <= n <= dates.len(),
        dates.len() <= usize::MAX,
    ensures
        forall|a: int, b: int|
            0 <= a < b < kept_upto(dates, from, to, n).len() ==> kept_upto(dates, from, to, n)[a] < kept_upto(
                dates,
                from,
                to,
                n,
            )[b],
    decreases n,
{
    if n > 0 {
        lemma_kept_strictly_increasing(dates, from, to, n - 1);
        lemma_kept_exact(dates, from, to, n - 1);
        let prev = kept_upto(dates, from, to, n - 1);
        let cur = kept_upto(dates, from, to, n);
        assert forall|a: int, b: int| 0 <= a < b < cur.len() implies cur[a] < cur[b] by {
            if b < prev.len() {
                assert(cur[a] == prev[a] && cur[b] == prev[b]);
            } else {
                assert(cur[a] == prev[a]);
            }
        }
    }
}

} // verus!
