//! The reader of an account data export: a line-by-line state machine that
//! collects accounts with their details, trades, logins, shop purchases and
//! payment transactions.
//!
//! The caller feeds it one trimmed line at a time (`step`). Two things it cannot
//! do alone are left to the caller between lines: an entry of a trade is looked up
//! in the item catalogue (`pending_item`, answered with `add_resolved_item`), and
//! a finished trade is stored with the sets the catalogue knows (`finished_trade`,
//! answered with `store_trade`). At the end `finish`, then `store_trade` when
//! needed, then `close`.
use vstd::prelude::*;
use crate::account::{Account, AccountView, empty_account, trades_of, stored_trade, trade_totals_fit};
use crate::enums::LogSection;
use crate::export_text::{captures, groups_view, regex_captures, naive_utc_millis, parse_naive_utc_millis, to_date,
    to_date_spec};
use crate::records::{Login, LoginView, Purchase, PurchaseItem, PurchaseView, Transaction, TransactionView};
use crate::text::{chars_of, string_of, trim, trim_seq, replace, replace_seq, starts_with, starts_with_seq, contains,
    contains_seq, ends_with, ends_with_seq};
use crate::trade::{PlayerTrade, PlayerTradeView, TradeItem, CraftedSet, strings_view, sets_view, empty_trade, opt_str_view};
use crate::number::{parse_i64, parse_i64_spec};
use crate::detection::TradeDetection;

verus! {

/// The part of the export being read.
#[derive(Clone, Copy, Debug, PartialEq, Eq, Structural)]
pub enum GdprSection {
    Account,
    Trades,
    Logins,
    Purchases,
    Transactions,
}

/// The text after removing every `key` and trimming.
pub open spec fn field_spec(line: Seq<char>, key: Seq<char>) -> Seq<char> {
    trim_seq(replace_seq(line, key, Seq::empty()))
}

/// The text of `line` without any `key`, trimmed (see `field_spec`).
pub fn field_value(line: &Vec<char>, key: &str) -> (res: Vec<char>)
    ensures
        res@ == field_spec(line@, key@),
{
    let k = chars_of(key);
    let empty: Vec<char> = Vec::new();
    if k.len() == 0 {
        assert(replace_seq(line@, key@, Seq::empty()) == line@);
        return trim(line);
    }
    let r = replace(line, &k, &empty);
    trim(&r)
}

fn has_prefix(line: &Vec<char>, key: &str) -> (res: bool)
    ensures
        res == starts_with_seq(line@, key@),
{
    starts_with(line, &chars_of(key))
}

fn is_text(line: &Vec<char>, lit: &str) -> (res: bool)
    ensures
        res == (line@ == lit@),
{
    crate::enums::seq_eq(line, lit)
}

/// The line is a row of dashes.
pub open spec fn is_rule(line: Seq<char>) -> bool {
    line.len() > 0 && forall|i: int| 0 <= i < line.len() ==> line[i] == '-'
}

fn is_rule_exec(line: &Vec<char>) -> (res: bool)
    ensures
        res == is_rule(line@),
{
    if line.len() == 0 {
        return false;
    }
    let mut i: usize = 0;
    while i < line.len()
        invariant
            i <= line.len(),
            forall|k: int| 0 <= k < i ==> line@[k] == '-',
        decreases line.len() - i,
    {
        if line[i] != '-' {
            return false;
        }
        i += 1;
    }
    true
}

/// The pattern matches the line.
pub open spec fn matches(pattern: Seq<char>, line: Seq<char>) -> bool {
    regex_captures(pattern, line) is Some
}

/// The text of capture group `i`, when it took part.
pub open spec fn group(g: Option<Seq<Option<Seq<char>>>>, i: int) -> Option<Seq<char>> {
    match g {
        Some(v) => if 0 <= i < v.len() {
            v[i]
        } else {
            None
        },
        None => None,
    }
}

fn group_exec(g: &Option<Vec<Option<String>>>, i: usize) -> (res: Option<Vec<char>>)
    ensures
        match res {
            Some(v) => group(groups_view(*g), i as int) == Some(v@),
            None => group(groups_view(*g), i as int) is None,
        },
{
    match g {
        Some(v) => if i < v.len() {
            match &v[i] {
                Some(s) => Some(crate::text::chars_of_string(s)),
                None => None,
            }
        } else {
            None
        },
        None => None,
    }
}

/// The layout of the account dates.
pub open spec fn date_layout() -> Seq<char> {
    "%Y-%m-%d %H:%M:%S"@
}

/// A line of the account block: the detail it sets and whether the following
/// lines are addresses (`None` when the line is no detail line). `IP :` starts a
/// list of addresses that ends at an empty line.
pub open spec fn account_detail_spec(a: AccountView, line: Seq<char>, awaiting_ips: bool) -> Option<(AccountView, bool)> {
    if starts_with_seq(line, "OID :"@) {
        Some((AccountView { oid: field_spec(line, "OID :"@), ..a }, awaiting_ips))
    } else if starts_with_seq(line, "EMAIL :"@) {
        Some((AccountView { email: field_spec(line, "EMAIL :"@), ..a }, awaiting_ips))
    } else if starts_with_seq(line, "DISPLAY NAME :"@) {
        Some((AccountView { display_name: field_spec(line, "DISPLAY NAME :"@), ..a }, awaiting_ips))
    } else if starts_with_seq(line, "ACTIVATED :"@) {
        Some((AccountView { activated: field_spec(line, "ACTIVATED :"@) == "1"@, ..a }, awaiting_ips))
    } else if starts_with_seq(line, "SUBSCRIBED TO EMAILS :"@) {
        Some((AccountView { subscribed_to_emails: field_spec(line, "SUBSCRIBED TO EMAILS :"@) == "1"@, ..a }, awaiting_ips))
    } else if starts_with_seq(line, "SIGNUP LANGUAGE :"@) {
        Some((AccountView { signup_language: field_spec(line, "SIGNUP LANGUAGE :"@), ..a }, awaiting_ips))
    } else if starts_with_seq(line, "SIGNUP COUNTRY CODE :"@) {
        Some((AccountView { signup_country_code: field_spec(line, "SIGNUP COUNTRY CODE :"@), ..a }, awaiting_ips))
    } else if starts_with_seq(line, "COUNTRY CODE :"@) {
        Some((AccountView { country_code: field_spec(line, "COUNTRY CODE :"@), ..a }, awaiting_ips))
    } else if starts_with_seq(line, "SIGNUP PAGE :"@) {
        Some((AccountView { signup_page: field_spec(line, "SIGNUP PAGE :"@), ..a }, awaiting_ips))
    } else if starts_with_seq(line, "IP :"@) {
        let inline = field_spec(line, "IP :"@);
        Some((AccountView { ips: if inline.len() > 0 { a.ips.push(inline) } else { a.ips }, ..a }, true))
    } else if awaiting_ips {
        if line.len() == 0 {
            Some((a, false))
        } else {
            Some((AccountView { ips: a.ips.push(line), ..a }, true))
        }
    } else if starts_with_seq(line, "ACCOUNT CREATION DATE :"@) {
        let d = naive_utc_millis(field_spec(line, "ACCOUNT CREATION DATE :"@), date_layout());
        Some((AccountView { account_creation_date: if d is Some { d } else { a.account_creation_date }, ..a }, awaiting_ips))
    } else if starts_with_seq(line, "LAST LOGIN DATE :"@) {
        let d = naive_utc_millis(field_spec(line, "LAST LOGIN DATE :"@), date_layout());
        Some((AccountView { last_login_date: if d is Some { d } else { a.last_login_date }, ..a }, awaiting_ips))
    } else if starts_with_seq(line, "LANGUAGE :"@) {
        Some((AccountView { language: field_spec(line, "LANGUAGE :"@), ..a }, awaiting_ips))
    } else {
        None
    }
}

fn set_text(target: &mut String, line: &Vec<char>, key: &str)
    ensures
        final(target)@ == field_spec(line@, key@),
{
    let v = field_value(line, key);
    *target = string_of(&v);
}

fn push_string(v: &mut Vec<String>, s: String)
    ensures
        strings_view(final(v)@) == strings_view(old(v)@).push(s@),
{
    let ghost before = strings_view(v@);
    v.push(s);
    assert(strings_view(v@) =~= before.push(s@));
}

impl Account {
    /// Reads a line of the account block into the account (see
    /// `account_detail_spec`); returns whether it was a detail line.
    pub fn read_detail(&mut self, line: &Vec<char>, awaiting_ips: &mut bool) -> (handled: bool)
        ensures
            match account_detail_spec(old(self)@, line@, *old(awaiting_ips)) {
                Some((a, w)) => handled && final(self)@ == a && *final(awaiting_ips) == w,
                None => !handled && final(self)@ == old(self)@ && *final(awaiting_ips) == *old(awaiting_ips),
            },
    {
        if has_prefix(line, "OID :") {
            set_text(&mut self.oid, line, "OID :");
        } else if has_prefix(line, "EMAIL :") {
            set_text(&mut self.email, line, "EMAIL :");
        } else if has_prefix(line, "DISPLAY NAME :") {
            set_text(&mut self.display_name, line, "DISPLAY NAME :");
        } else if has_prefix(line, "ACTIVATED :") {
            self.activated = is_text(&field_value(line, "ACTIVATED :"), "1");
        } else if has_prefix(line, "SUBSCRIBED TO EMAILS :") {
            self.subscribed_to_emails = is_text(&field_value(line, "SUBSCRIBED TO EMAILS :"), "1");
        } else if has_prefix(line, "SIGNUP LANGUAGE :") {
            set_text(&mut self.signup_language, line, "SIGNUP LANGUAGE :");
        } else if has_prefix(line, "SIGNUP COUNTRY CODE :") {
            set_text(&mut self.signup_country_code, line, "SIGNUP COUNTRY CODE :");
        } else if has_prefix(line, "COUNTRY CODE :") {
            set_text(&mut self.country_code, line, "COUNTRY CODE :");
        } else if has_prefix(line, "SIGNUP PAGE :") {
            set_text(&mut self.signup_page, line, "SIGNUP PAGE :");
        } else if has_prefix(line, "IP :") {
            let inline = field_value(line, "IP :");
            if inline.len() > 0 {
                push_string(&mut self.ips, string_of(&inline));
            }
            *awaiting_ips = true;
        } else if *awaiting_ips {
            if line.len() == 0 {
                *awaiting_ips = false;
            } else {
                push_string(&mut self.ips, string_of(line));
            }
        } else if has_prefix(line, "ACCOUNT CREATION DATE :") {
            let d = field_value(line, "ACCOUNT CREATION DATE :");
            let t = parse_naive_utc_millis(string_of(&d).as_str(), "%Y-%m-%d %H:%M:%S");
            if t.is_some() {
                self.account_creation_date = t;
            }
        } else if has_prefix(line, "LAST LOGIN DATE :") {
            let d = field_value(line, "LAST LOGIN DATE :");
            let t = parse_naive_utc_millis(string_of(&d).as_str(), "%Y-%m-%d %H:%M:%S");
            if t.is_some() {
                self.last_login_date = t;
            }
        } else if has_prefix(line, "LANGUAGE :") {
            set_text(&mut self.language, line, "LANGUAGE :");
        } else {
            return false;
        }
        true
    }
}

/// The pattern of a trades header.
pub open spec fn trades_re() -> Seq<char> { "^TRADES\\s*:\\s*(\\d+)"@ }
/// The pattern of a logins header.
pub open spec fn logins_re() -> Seq<char> { "^LOGINS\\s*:\\s*(\\d+)"@ }
/// The pattern of a purchases header.
pub open spec fn purchases_re() -> Seq<char> { "^PURCHASES\\s*:\\s*(\\d+)"@ }
/// The pattern of a transactions header.
pub open spec fn transactions_re() -> Seq<char> { "^TRANSACTIONS"@ }
/// The pattern of a time line.
pub open spec fn date_re() -> Seq<char> { "^\\d{4}-\\d{2}-\\d{2}\\s+\\d{2}:\\d{2}:\\d{2}\\s+UTC$"@ }
/// The pattern of an entry line: a name and maybe a colon and a count.
pub open spec fn item_re() -> Seq<char> { "^(.+?)(?:\\s*:\\s*(-?\\d+))?$"@ }
/// The pattern of the platinum spent on a purchase.
pub open spec fn platinum_re() -> Seq<char> { "^PREMIUM CREDITS\\s*:\\s*(\\d+)"@ }
/// The pattern of a transaction's number.
pub open spec fn transaction_index_re() -> Seq<char> { "^(\\d+)\\s*:\\s*$"@ }

/// The reader's state.
#[derive(Debug)]
pub struct GdprParser {
    pub accounts: Vec<Account>,
    pub current_account: Option<Account>,
    pub current_trade: Option<PlayerTrade>,
    pub current_login: Option<Login>,
    pub current_purchase: Option<Purchase>,
    pub current_transaction: Option<Transaction>,
    pub log_section: Option<LogSection>,
    pub section: Option<GdprSection>,
    pub awaiting_purchase_shop_id: bool,
    pub awaiting_account_ips: bool,
    pub previous_line: String,
    /// A trade that ended and waits for `store_trade`.
    pub finished_trade: Option<PlayerTrade>,
    /// An entry text and its side that wait for `add_resolved_item`.
    pub pending_item: Option<(String, LogSection)>,
}

/// The contents of the reader's state.
pub struct GdprView {
    pub accounts: Seq<AccountView>,
    pub account: Option<AccountView>,
    pub trade: Option<PlayerTradeView>,
    pub login: Option<LoginView>,
    pub purchase: Option<PurchaseView>,
    pub transaction: Option<TransactionView>,
    pub log_section: Option<LogSection>,
    pub section: Option<GdprSection>,
    pub awaiting_shop_id: bool,
    pub awaiting_ips: bool,
    pub previous_line: Seq<char>,
    pub finished_trade: Option<PlayerTradeView>,
    pub pending_item: Option<(Seq<char>, LogSection)>,
}

/// The contents of an optional value.
pub open spec fn opt_view<T: View>(o: Option<T>) -> Option<T::V> {
    match o {
        Some(x) => Some(x@),
        None => None,
    }
}

impl View for GdprParser {
    type V = GdprView;

    open spec fn view(&self) -> GdprView {
        GdprView {
            accounts: self.accounts@.map_values(|a: Account| a@),
            account: opt_view(self.current_account),
            trade: opt_view(self.current_trade),
            login: opt_view(self.current_login),
            purchase: opt_view(self.current_purchase),
            transaction: opt_view(self.current_transaction),
            log_section: self.log_section,
            section: self.section,
            awaiting_shop_id: self.awaiting_purchase_shop_id,
            awaiting_ips: self.awaiting_account_ips,
            previous_line: self.previous_line@,
            finished_trade: opt_view(self.finished_trade),
            pending_item: match self.pending_item {
                Some((r, side)) => Some((r@, side)),
                None => None,
            },
        }
    }
}

/// The state before the first line.
pub open spec fn initial_view() -> GdprView {
    GdprView {
        accounts: Seq::empty(),
        account: None,
        trade: None,
        login: None,
        purchase: None,
        transaction: None,
        log_section: None,
        section: None,
        awaiting_shop_id: false,
        awaiting_ips: false,
        previous_line: Seq::empty(),
        finished_trade: None,
        pending_item: None,
    }
}

/// The finished accounts with the current one appended, when there is one.
pub open spec fn flushed(s: GdprView) -> Seq<AccountView> {
    match s.account {
        Some(a) => s.accounts.push(a),
        None => s.accounts,
    }
}

/// A section header: the section begins and the account's list for it empties.
pub open spec fn header_spec(s: GdprView, sec: GdprSection) -> GdprView {
    GdprView {
        section: Some(sec),
        account: match s.account {
            Some(a) => Some(
                match sec {
                    GdprSection::Trades => AccountView { trades: Seq::empty(), ..a },
                    GdprSection::Logins => AccountView { logins: Seq::empty(), ..a },
                    GdprSection::Purchases => AccountView { purchases: Seq::empty(), ..a },
                    _ => AccountView { transactions: Seq::empty(), ..a },
                },
            ),
            None => None,
        },
        ..s
    }
}

/// A time line: within an account, the record in progress of the section is
/// kept (a trade waits to be stored) and a new one starts at that time.
pub open spec fn date_line_spec(s: GdprView, line: Seq<char>, now: i64) -> GdprView {
    let t = to_date_spec(line, now);
    match (s.section, s.account) {
        (Some(GdprSection::Trades), Some(a)) => GdprView { finished_trade: s.trade, trade: Some(empty_trade(t)), ..s },
        (Some(GdprSection::Logins), Some(a)) => GdprView {
            account: Some(AccountView { logins: if s.login is Some { a.logins.push(s.login->0) } else { a.logins }, ..a }),
            login: Some(LoginView { date: t, ip: None, client_type: None }),
            ..s
        },
        (Some(GdprSection::Purchases), Some(a)) => GdprView {
            account: Some(AccountView { purchases: if s.purchase is Some { a.purchases.push(s.purchase->0) } else { a.purchases }, ..a }),
            purchase: Some(PurchaseView { shop_id: Seq::empty(), date: t, price: 0, items_received: Seq::empty() }),
            awaiting_shop_id: true,
            log_section: None,
            ..s
        },
        (Some(GdprSection::Transactions), Some(a)) => GdprView {
            account: Some(
                AccountView {
                    transactions: if s.transaction is Some { a.transactions.push(s.transaction->0) } else { a.transactions },
                    ..a
                },
            ),
            transaction: Some(new_transaction(t)),
            ..s
        },
        _ => s,
    }
}

/// A transaction at `t` with nothing else known yet.
pub open spec fn new_transaction(t: i64) -> TransactionView {
    TransactionView { sku: Seq::empty(), price: 0, currency: Seq::empty(), vendor: Seq::empty(), date: t, account: Seq::empty() }
}

/// A count read from an entry line: the number after the colon, 1 when there is
/// none or it does not read as an `i64`.
pub open spec fn count_spec(g: Option<Seq<Option<Seq<char>>>>) -> i64 {
    match group(g, 2) {
        Some(t) => match parse_i64_spec(t) {
            Some(v) => v,
            None => 1,
        },
        None => 1,
    }
}

/// The size of a count, the lowest `i64` staying as it is.
pub open spec fn magnitude(q: i64) -> i64 {
    if q < 0 && q != i64::MIN {
        (-q) as i64
    } else {
        q
    }
}

/// An entry line of a trade: the entry's text after normalising (legendary
/// cores and rivens get their rank, platinum and credits their catalogue names
/// and the trade's totals), with " x count" for more than one; `None` for a line
/// that is no entry line.
pub open spec fn trade_entry_spec(t: PlayerTradeView, line: Seq<char>, d: (Seq<char>, Seq<char>)) -> Option<(PlayerTradeView, Seq<char>)> {
    trade_entry_from(t, regex_captures(item_re(), line), d)
}

/// The entry text and the trade's totals from the capture groups of an entry
/// line (group 1 the text, group 2 the count); `None` when the line did not
/// match. See `trade_entry_spec`.
pub open spec fn trade_entry_from(t: PlayerTradeView, g: Option<Seq<Option<Seq<char>>>>, d: (Seq<char>, Seq<char>)) -> Option<(PlayerTradeView, Seq<char>)> {
    if g is None {
        None
    } else {
        let raw = match group(g, 1) {
            Some(r) => r,
            None => Seq::empty(),
        };
        let q = magnitude(count_spec(g));
        let (raw1, t1) = if raw == "LEGENDARY CORE"@ || raw == "Legendary Core"@ {
            ("Legendary Core (LEGENDARY RANK 0)"@, t)
        } else if contains_seq(raw, "RIVEN MOD"@) || contains_seq(raw, "Riven Mod"@) {
            (raw + " (RIVEN RANK 0)"@, t)
        } else if ends_with_seq(raw, "PLATINUM"@) || ends_with_seq(raw, "PREMIUM CREDITS"@) {
            (d.0, PlayerTradeView { platinum: q, ..t })
        } else if ends_with_seq(raw, "CREDITS"@) || ends_with_seq(raw, "REGULAR CREDITS"@) {
            (d.1, PlayerTradeView { credits: q, ..t })
        } else {
            (raw, t)
        };
        Some((t1, if q > 1 { raw1 + " x "@ + crate::number::int_text(q as int) } else { raw1 }))
    }
}

/// A line of the trades section: the side markers, the end of the received
/// side, and entry lines (which wait to be looked up). The flag tells whether
/// the line was taken up without counting as the previous line.
pub open spec fn trade_line_spec(s: GdprView, line: Seq<char>, d: (Seq<char>, Seq<char>)) -> (GdprView, bool) {
    if line == "TRADED ITEMS GIVEN :"@ {
        (GdprView { log_section: Some(LogSection::Offered), ..s }, true)
    } else if line == "TRADED ITEMS RECIEVED :"@ {
        (GdprView { log_section: Some(LogSection::Received), ..s }, true)
    } else if line.len() == 0 && s.log_section == Some(LogSection::Received) {
        (GdprView { log_section: None, ..s }, true)
    } else if s.trade is None || s.log_section is None {
        (s, true)
    } else {
        match trade_entry_spec(s.trade->0, line, d) {
            None => (s, true),
            Some((t, raw)) => (GdprView { trade: Some(t), pending_item: Some((raw, s.log_section->0)), ..s }, false),
        }
    }
}

/// A line of the logins section: the address or the client of the login.
pub open spec fn login_line_spec(s: GdprView, line: Seq<char>) -> (GdprView, bool) {
    match s.login {
        Some(l) => if starts_with_seq(line, "IP :"@) {
            (GdprView { login: Some(LoginView { ip: Some(field_spec(line, "IP :"@)), ..l }), ..s }, true)
        } else if starts_with_seq(line, "CLIENT TYPE :"@) {
            (GdprView { login: Some(LoginView { client_type: Some(field_spec(line, "CLIENT TYPE :"@)), ..l }), ..s }, true)
        } else {
            (s, false)
        },
        None => (s, false),
    }
}

/// A received item line of a purchase: the trimmed name and the count; a
/// booster's count is its duration in seconds, which becomes whole days in the
/// name and a count of 1.
pub open spec fn purchase_item_spec(line: Seq<char>) -> Option<(Seq<char>, i64)> {
    purchase_item_from(regex_captures(item_re(), line))
}

/// The received item from the capture groups of an item line (group 1 the
/// name, group 2 the count); `None` when the line did not match. See
/// `purchase_item_spec`.
pub open spec fn purchase_item_from(g: Option<Seq<Option<Seq<char>>>>) -> Option<(Seq<char>, i64)> {
    if g is None {
        None
    } else {
        let name = trim_seq(
            match group(g, 1) {
                Some(r) => r,
                None => Seq::empty(),
            },
        );
        let q = count_spec(g);
        if contains_seq(name, "Booster"@) && q > 1 {
            Some((name + " "@ + crate::number::int_text(q as int / 86400) + " Days"@, 1))
        } else {
            Some((name, q))
        }
    }
}

/// The platinum spent, from the capture groups of a "PREMIUM CREDITS : n" line:
/// group 1 read as a number, 0 when it does not read; `None` when the line did
/// not match.
pub open spec fn purchase_price_from(g: Option<Seq<Option<Seq<char>>>>) -> Option<i64> {
    if g is None {
        None
    } else {
        Some(
            match group(g, 1) {
                Some(t) => match parse_i64_spec(t) {
                    Some(v) => v,
                    None => 0,
                },
                None => 0,
            },
        )
    }
}

/// A line of the purchases section: the shop id (first non-empty line after the
/// time), the platinum spent, the start and end of the received items, and the
/// items.
pub open spec fn purchase_line_spec(s: GdprView, line: Seq<char>) -> (GdprView, bool) {
    match s.purchase {
        Some(p) => if s.awaiting_shop_id && line.len() > 0 {
            (GdprView { purchase: Some(PurchaseView { shop_id: line, ..p }), awaiting_shop_id: false, ..s }, true)
        } else if purchase_price_from(regex_captures(platinum_re(), line)) is Some {
            let price = purchase_price_from(regex_captures(platinum_re(), line))->0;
            (GdprView { purchase: Some(PurchaseView { price, ..p }), ..s }, true)
        } else if line == "ITEMS RECIEVED :"@ {
            (GdprView { log_section: Some(LogSection::Items), ..s }, true)
        } else if s.log_section == Some(LogSection::Items) {
            if line.len() == 0 {
                (GdprView { log_section: None, ..s }, true)
            } else {
                match purchase_item_spec(line) {
                    Some(item) => (GdprView { purchase: Some(PurchaseView { items_received: p.items_received.push(item), ..p }), ..s }, false),
                    None => (s, false),
                }
            }
        } else {
            (s, false)
        },
        None => (s, false),
    }
}

/// A transaction number line: the transaction in progress is kept (within an
/// account) and a new one starts at `now`.
pub open spec fn transaction_index_spec(s: GdprView, now: i64) -> GdprView {
    GdprView {
        account: match s.account {
            Some(a) => Some(
                AccountView {
                    transactions: if s.transaction is Some { a.transactions.push(s.transaction->0) } else { a.transactions },
                    ..a
                },
            ),
            None => None,
        },
        transaction: Some(new_transaction(now)),
        ..s
    }
}

/// A line of the transactions section: a transaction number closes the one in
/// progress (kept within an account) and starts a new one at `now`; the other
/// lines fill in the one in progress. The price is read as a decimal amount and
/// kept as its whole part (0 when it does not read).
pub open spec fn transaction_line_spec(s: GdprView, line: Seq<char>, now: i64) -> (GdprView, bool) {
    if matches(transaction_index_re(), line) {
        (transaction_index_spec(s, now), true)
    } else {
        match s.transaction {
            Some(t) => if starts_with_seq(line, "SKU :"@) {
                (GdprView { transaction: Some(TransactionView { sku: field_spec(line, "SKU :"@), ..t }), ..s }, true)
            } else if starts_with_seq(line, "PRICE :"@) {
                let price = match crate::number::decimal_whole_spec(field_spec(line, "PRICE :"@)) {
                    Some(v) => v,
                    None => 0,
                };
                (GdprView { transaction: Some(TransactionView { price, ..t }), ..s }, true)
            } else if starts_with_seq(line, "CURRENCY :"@) {
                (GdprView { transaction: Some(TransactionView { currency: field_spec(line, "CURRENCY :"@), ..t }), ..s }, true)
            } else if starts_with_seq(line, "VENDOR :"@) {
                (GdprView { transaction: Some(TransactionView { vendor: field_spec(line, "VENDOR :"@), ..t }), ..s }, true)
            } else if starts_with_seq(line, "DATE :"@) {
                (GdprView { transaction: Some(TransactionView { date: to_date_spec(field_spec(line, "DATE :"@), now), ..t }), ..s }, true)
            } else if starts_with_seq(line, "ACCOUNT :"@) {
                (GdprView { transaction: Some(TransactionView { account: field_spec(line, "ACCOUNT :"@), ..t }), ..s }, true)
            } else {
                (s, false)
            },
            None => (s, false),
        }
    }
}

/// The lines that are neither headers, account details nor times, read by the
/// section they stand in; a line not taken up becomes the previous line.
pub open spec fn body_line_spec(s: GdprView, line: Seq<char>, now: i64, d: (Seq<char>, Seq<char>)) -> GdprView {
    let (s1, taken) = match s.section {
        Some(GdprSection::Trades) => trade_line_spec(s, line, d),
        Some(GdprSection::Logins) => login_line_spec(s, line),
        Some(GdprSection::Purchases) => purchase_line_spec(s, line),
        Some(GdprSection::Transactions) => transaction_line_spec(s, line, now),
        _ => (s, false),
    };
    if taken {
        s1
    } else {
        GdprView { previous_line: line, ..s1 }
    }
}

/// What a line's section-header patterns say.
#[derive(Clone, Copy, Debug, PartialEq, Eq, Structural)]
pub enum HeaderMatch {
    /// The line opens this section.
    Section(GdprSection),
    /// A "LOGINS : n" line under "Stats": a statistic, not a section.
    Skipped,
    /// No header.
    NotHeader,
}

/// The header a line is, from the captures of the TRADES, LOGINS, PURCHASES
/// and TRANSACTIONS patterns, tried in that order; a LOGINS line right after
/// "Stats" is skipped.
pub open spec fn header_from(
    trades: Option<Seq<Option<Seq<char>>>>,
    logins: Option<Seq<Option<Seq<char>>>>,
    purchases: Option<Seq<Option<Seq<char>>>>,
    transactions: Option<Seq<Option<Seq<char>>>>,
    previous_line: Seq<char>,
) -> HeaderMatch {
    if trades is Some {
        HeaderMatch::Section(GdprSection::Trades)
    } else if logins is Some {
        if previous_line == "Stats"@ {
            HeaderMatch::Skipped
        } else {
            HeaderMatch::Section(GdprSection::Logins)
        }
    } else if purchases is Some {
        HeaderMatch::Section(GdprSection::Purchases)
    } else if transactions is Some {
        HeaderMatch::Section(GdprSection::Transactions)
    } else {
        HeaderMatch::NotHeader
    }
}

/// One line of the export. `now` stands in for times that cannot be read; `d`
/// holds the catalogue names of platinum and credits.
pub open spec fn step_spec(s: GdprView, line: Seq<char>, now: i64, d: (Seq<char>, Seq<char>)) -> GdprView {
    if line == "ACCOUNT"@ {
        GdprView { accounts: flushed(s), section: Some(GdprSection::Account), account: Some(empty_account()), awaiting_ips: false, ..s }
    } else if s.section == Some(GdprSection::Account) && is_rule(line) {
        GdprView { accounts: flushed(s), account: None, section: None, awaiting_ips: false, ..s }
    } else {
        let header = header_from(
            regex_captures(trades_re(), line),
            regex_captures(logins_re(), line),
            regex_captures(purchases_re(), line),
            regex_captures(transactions_re(), line),
            s.previous_line,
        );
        match header {
            HeaderMatch::Section(sec) => header_spec(s, sec),
            HeaderMatch::Skipped => s,
            HeaderMatch::NotHeader => {
                let detail = if s.section == Some(GdprSection::Account) && s.account is Some {
                    account_detail_spec(s.account->0, line, s.awaiting_ips)
                } else {
                    None
                };
                match detail {
                    Some((a, w)) => GdprView { account: Some(a), awaiting_ips: w, ..s },
                    None => if matches(date_re(), line) {
                        date_line_spec(s, line, now)
                    } else {
                        body_line_spec(s, line, now, d)
                    },
                }
            },
        }
    }
}

fn lit(s: &str) -> (res: Vec<char>)
    ensures
        res@ == s@,
{
    chars_of(s)
}

fn count_exec(g: &Option<Vec<Option<String>>>) -> (res: i64)
    ensures
        res == count_spec(groups_view(*g)),
{
    match group_exec(g, 2) {
        Some(t) => match parse_i64(&t) {
            Some(v) => v,
            None => 1,
        },
        None => 1,
    }
}

fn magnitude_exec(q: i64) -> (res: i64)
    ensures
        res == magnitude(q),
{
    if q < 0 && q != i64::MIN {
        -q
    } else {
        q
    }
}

fn with_count(raw: &Vec<char>, q: i64) -> (res: Vec<char>)
    ensures
        res@ == raw@ + " x "@ + crate::number::int_text(q as int),
{
    let a = crate::text::concat(raw, &lit(" x "));
    crate::text::concat(&a, &crate::number::i64_text(q))
}

/// The header a line is (see `header_from`), from the captures of the TRADES,
/// LOGINS, PURCHASES and TRANSACTIONS patterns and the line before it.
pub fn header_of(
    trades: &Option<Vec<Option<String>>>,
    logins: &Option<Vec<Option<String>>>,
    purchases: &Option<Vec<Option<String>>>,
    transactions: &Option<Vec<Option<String>>>,
    previous_line: &str,
) -> (res: HeaderMatch)
    ensures
        res == header_from(
            groups_view(*trades),
            groups_view(*logins),
            groups_view(*purchases),
            groups_view(*transactions),
            previous_line@,
        ),
{
    if trades.is_some() {
        HeaderMatch::Section(GdprSection::Trades)
    } else if logins.is_some() {
        if is_text(&chars_of(previous_line), "Stats") {
            HeaderMatch::Skipped
        } else {
            HeaderMatch::Section(GdprSection::Logins)
        }
    } else if purchases.is_some() {
        HeaderMatch::Section(GdprSection::Purchases)
    } else if transactions.is_some() {
        HeaderMatch::Section(GdprSection::Transactions)
    } else {
        HeaderMatch::NotHeader
    }
}

/// The platinum spent, from the captures of a "PREMIUM CREDITS : n" line (see
/// `purchase_price_from`).
pub fn purchase_price(g: &Option<Vec<Option<String>>>) -> (res: Option<i64>)
    ensures
        res == purchase_price_from(groups_view(*g)),
{
    if g.is_none() {
        return None;
    }
    Some(
        match group_exec(g, 1) {
            Some(t) => match parse_i64(&t) {
                Some(v) => v,
                None => 0,
            },
            None => 0,
        },
    )
}

/// A purchase's received item, from the captures of an item line (see
/// `purchase_item_from`).
pub fn purchase_item(g: &Option<Vec<Option<String>>>) -> (res: Option<(String, i64)>)
    ensures
        match purchase_item_from(groups_view(*g)) {
            Some((n, q)) => res matches Some(r) && r.0@ == n && r.1 == q,
            None => res is None,
        },
{
    if g.is_none() {
        return None;
    }
    let name = trim(
        &match group_exec(g, 1) {
            Some(r) => r,
            None => Vec::new(),
        },
    );
    let q = count_exec(g);
    if contains(&name, &lit("Booster")) && q > 1 {
        let days = q / 86400;
        let a = crate::text::concat(&name, &lit(" "));
        let b = crate::text::concat(&a, &crate::number::i64_text(days));
        Some((string_of(&crate::text::concat(&b, &lit(" Days"))), 1i64))
    } else {
        Some((string_of(&name), q))
    }
}

/// A trade's entry line, from its captures (see `trade_entry_from`): the entry
/// text to look up, with the trade's platinum or credits total set from a
/// currency line; `None`, with the trade unchanged, when the line did not match.
pub fn trade_entry(
    trade: &mut PlayerTrade,
    g: &Option<Vec<Option<String>>>,
    platinum_name: &str,
    credits_name: &str,
) -> (res: Option<String>)
    ensures
        match trade_entry_from(old(trade)@, groups_view(*g), (platinum_name@, credits_name@)) {
            Some((t, raw)) => res is Some && res->0@ == raw && final(trade)@ == t,
            None => res is None && final(trade)@ == old(trade)@,
        },
{
    if g.is_none() {
        return None;
    }
    let raw = match group_exec(g, 1) {
        Some(r) => r,
        None => Vec::new(),
    };
    let q = magnitude_exec(count_exec(g));
    let raw1 = if is_text(&raw, "LEGENDARY CORE") || is_text(&raw, "Legendary Core") {
        lit("Legendary Core (LEGENDARY RANK 0)")
    } else if contains(&raw, &lit("RIVEN MOD")) || contains(&raw, &lit("Riven Mod")) {
        crate::text::concat(&raw, &lit(" (RIVEN RANK 0)"))
    } else if ends_with(&raw, &lit("PLATINUM")) || ends_with(&raw, &lit("PREMIUM CREDITS")) {
        trade.platinum = q;
        chars_of(platinum_name)
    } else if ends_with(&raw, &lit("CREDITS")) || ends_with(&raw, &lit("REGULAR CREDITS")) {
        trade.credits = q;
        chars_of(credits_name)
    } else {
        raw
    };
    let raw2 = if q > 1 {
        with_count(&raw1, q)
    } else {
        raw1
    };
    Some(string_of(&raw2))
}

fn account_view_of_new() -> (res: Account)
    ensures
        res@ == empty_account(),
{
    let a = Account::new();
    assert(strings_view(a.ips@) =~= Seq::<Seq<char>>::empty());
    assert(trades_of(a.trades@) =~= Seq::<PlayerTradeView>::empty());
    assert(a.logins@.map_values(|l: Login| l@) =~= Seq::<LoginView>::empty());
    assert(a.purchases@.map_values(|p: Purchase| p@) =~= Seq::<PurchaseView>::empty());
    assert(a.transactions@.map_values(|t: Transaction| t@) =~= Seq::<TransactionView>::empty());
    a
}

impl GdprParser {
    /// A reader before the first line.
    pub fn new() -> (res: GdprParser)
        ensures
            res@ == initial_view(),
    {
        let r = GdprParser {
            accounts: Vec::new(),
            current_account: None,
            current_trade: None,
            current_login: None,
            current_purchase: None,
            current_transaction: None,
            log_section: None,
            section: None,
            awaiting_purchase_shop_id: false,
            awaiting_account_ips: false,
            previous_line: String::new(),
            finished_trade: None,
            pending_item: None,
        };
        assert(r.accounts@.map_values(|a: Account| a@) =~= Seq::<AccountView>::empty());
        r
    }

    fn flush_account(&mut self)
        ensures
            final(self)@ == (GdprView { accounts: flushed(old(self)@), account: None, ..old(self)@ }),
    {
        let ghost before = self.accounts@.map_values(|a: Account| a@);
        match self.current_account.take() {
            Some(acc) => {
                let ghost av = acc@;
                self.accounts.push(acc);
                assert(self.accounts@.map_values(|a: Account| a@) =~= before.push(av));
            },
            None => {},
        }
    }

    fn header(&mut self, sec: GdprSection)
        requires
            sec != GdprSection::Account,
        ensures
            final(self)@ == header_spec(old(self)@, sec),
    {
        self.section = Some(sec);
        match self.current_account.take() {
            Some(mut acc) => {
                match sec {
                    GdprSection::Trades => {
                        acc.trades.clear();
                        assert(trades_of(acc.trades@) =~= Seq::<PlayerTradeView>::empty());
                    },
                    GdprSection::Logins => {
                        acc.logins.clear();
                        assert(acc.logins@.map_values(|l: Login| l@) =~= Seq::<LoginView>::empty());
                    },
                    GdprSection::Purchases => {
                        acc.purchases.clear();
                        assert(acc.purchases@.map_values(|p: Purchase| p@) =~= Seq::<PurchaseView>::empty());
                    },
                    _ => {
                        acc.transactions.clear();
                        assert(acc.transactions@.map_values(|t: Transaction| t@) =~= Seq::<TransactionView>::empty());
                    },
                }
                self.current_account = Some(acc);
            },
            None => {},
        }
    }

    fn date_line(&mut self, line: &str, now: i64)
        ensures
            final(self)@ == date_line_spec(old(self)@, line@, now),
    {
        let t = to_date(line, now);
        let mut acc = match self.current_account.take() {
            Some(a) => a,
            None => return,
        };
        match self.section {
            Some(GdprSection::Trades) => {
                self.finished_trade = self.current_trade.take();
                self.current_trade = Some(PlayerTrade::new(t));
            },
            Some(GdprSection::Logins) => {
                let ghost before = acc.logins@.map_values(|l: Login| l@);
                match self.current_login.take() {
                    Some(l) => {
                        let ghost lv = l@;
                        acc.logins.push(l);
                        assert(acc.logins@.map_values(|l: Login| l@) =~= before.push(lv));
                    },
                    None => {},
                }
                self.current_login = Some(Login::new(t));
            },
            Some(GdprSection::Purchases) => {
                let ghost before = acc.purchases@.map_values(|p: Purchase| p@);
                match self.current_purchase.take() {
                    Some(p) => {
                        let ghost pv = p@;
                        acc.purchases.push(p);
                        assert(acc.purchases@.map_values(|p: Purchase| p@) =~= before.push(pv));
                    },
                    None => {},
                }
                self.current_purchase = Some(Purchase::new(t));
                self.awaiting_purchase_shop_id = true;
                self.log_section = None;
            },
            Some(GdprSection::Transactions) => {
                let ghost before = acc.transactions@.map_values(|x: Transaction| x@);
                match self.current_transaction.take() {
                    Some(x) => {
                        let ghost xv = x@;
                        acc.transactions.push(x);
                        assert(acc.transactions@.map_values(|x: Transaction| x@) =~= before.push(xv));
                    },
                    None => {},
                }
                self.current_transaction = Some(Transaction::new(t));
            },
            _ => {},
        }
        self.current_account = Some(acc);
    }
}

impl GdprParser {
    fn trade_line(&mut self, lc: &Vec<char>, line: &str, d: &TradeDetection) -> (taken: bool)
        requires
            lc@ == line@,
        ensures
            (final(self)@, taken) == trade_line_spec(old(self)@, line@, (d.platinum_name@, d.credits_name@)),
    {
        if is_text(lc, "TRADED ITEMS GIVEN :") {
            self.log_section = Some(LogSection::Offered);
            return true;
        }
        if is_text(lc, "TRADED ITEMS RECIEVED :") {
            self.log_section = Some(LogSection::Received);
            return true;
        }
        if lc.len() == 0 && self.log_section == Some(LogSection::Received) {
            self.log_section = None;
            return true;
        }
        let side = match self.log_section {
            Some(x) => x,
            None => return true,
        };
        let mut trade = match self.current_trade.take() {
            Some(t) => t,
            None => return true,
        };
        let g = captures("^(.+?)(?:\\s*:\\s*(-?\\d+))?$", line);
        let entry = trade_entry(&mut trade, &g, d.platinum_name.as_str(), d.credits_name.as_str());
        self.current_trade = Some(trade);
        match entry {
            None => true,
            Some(raw) => {
                self.pending_item = Some((raw, side));
                false
            },
        }
    }

    fn login_line(&mut self, lc: &Vec<char>) -> (taken: bool)
        ensures
            (final(self)@, taken) == login_line_spec(old(self)@, lc@),
    {
        let mut login = match self.current_login.take() {
            Some(l) => l,
            None => return false,
        };
        let taken = if has_prefix(lc, "IP :") {
            login.ip = Some(string_of(&field_value(lc, "IP :")));
            true
        } else if has_prefix(lc, "CLIENT TYPE :") {
            login.client_type = Some(string_of(&field_value(lc, "CLIENT TYPE :")));
            true
        } else {
            false
        };
        self.current_login = Some(login);
        taken
    }

    fn purchase_line(&mut self, lc: &Vec<char>, line: &str) -> (taken: bool)
        requires
            lc@ == line@,
        ensures
            (final(self)@, taken) == purchase_line_spec(old(self)@, line@),
    {
        let mut p = match self.current_purchase.take() {
            Some(p) => p,
            None => return false,
        };
        if self.awaiting_purchase_shop_id && lc.len() > 0 {
            p.shop_id = string_of(lc);
            self.awaiting_purchase_shop_id = false;
            self.current_purchase = Some(p);
            return true;
        }
        let pg = captures("^PREMIUM CREDITS\\s*:\\s*(\\d+)", line);
        if let Some(price) = purchase_price(&pg) {
            p.price = price;
            self.current_purchase = Some(p);
            return true;
        }
        if is_text(lc, "ITEMS RECIEVED :") {
            self.log_section = Some(LogSection::Items);
            self.current_purchase = Some(p);
            return true;
        }
        if self.log_section == Some(LogSection::Items) {
            if lc.len() == 0 {
                self.log_section = None;
                self.current_purchase = Some(p);
                return true;
            }
            let g = captures("^(.+?)(?:\\s*:\\s*(-?\\d+))?$", line);
            if let Some((n2, q2)) = purchase_item(&g) {
                let ghost before = crate::records::purchase_items_view(p.items_received@);
                let it = PurchaseItem::new(n2, q2);
                let ghost iv = it@;
                p.items_received.push(it);
                assert(crate::records::purchase_items_view(p.items_received@) =~= before.push(iv));
            }
        }
        self.current_purchase = Some(p);
        false
    }

    fn transaction_line(&mut self, lc: &Vec<char>, line: &str, now: i64) -> (taken: bool)
        requires
            lc@ == line@,
        ensures
            (final(self)@, taken) == transaction_line_spec(old(self)@, line@, now),
    {
        if self.start_transaction(&captures("^(\\d+)\\s*:\\s*$", line), now) {
            return true;
        }
        let mut t = match self.current_transaction.take() {
            Some(t) => t,
            None => return false,
        };
        let taken = if has_prefix(lc, "SKU :") {
            t.sku = string_of(&field_value(lc, "SKU :"));
            true
        } else if has_prefix(lc, "PRICE :") {
            t.price = match crate::number::decimal_whole(&field_value(lc, "PRICE :")) {
                Some(v) => v,
                None => 0,
            };
            true
        } else if has_prefix(lc, "CURRENCY :") {
            t.currency = string_of(&field_value(lc, "CURRENCY :"));
            true
        } else if has_prefix(lc, "VENDOR :") {
            t.vendor = string_of(&field_value(lc, "VENDOR :"));
            true
        } else if has_prefix(lc, "DATE :") {
            t.date = to_date(string_of(&field_value(lc, "DATE :")).as_str(), now);
            true
        } else if has_prefix(lc, "ACCOUNT :") {
            t.account = string_of(&field_value(lc, "ACCOUNT :"));
            true
        } else {
            false
        };
        self.current_transaction = Some(t);
        taken
    }

    /// A transaction number line, given the captures of the number pattern:
    /// when it matched, the transaction in progress is kept (within an account)
    /// and a new one starts at `now` (see `transaction_index_spec`), and the line
    /// is taken; otherwise nothing changes.
    pub fn start_transaction(&mut self, g: &Option<Vec<Option<String>>>, now: i64) -> (taken: bool)
        ensures
            taken == (groups_view(*g) is Some),
            taken ==> final(self)@ == transaction_index_spec(old(self)@, now),
            !taken ==> final(self)@ == old(self)@,
    {
        if g.is_some() {
            let cur = self.current_transaction.take();
            match self.current_account.take() {
                Some(mut acc) => {
                    let ghost before = acc.transactions@.map_values(|x: Transaction| x@);
                    match cur {
                        Some(x) => {
                            let ghost xv = x@;
                            acc.transactions.push(x);
                            assert(acc.transactions@.map_values(|x: Transaction| x@) =~= before.push(xv));
                        },
                        None => {},
                    }
                    self.current_account = Some(acc);
                },
                None => {},
            }
            self.current_transaction = Some(Transaction::new(now));
            return true;
        }
        false
    }
}

/// What `add_resolved_item` makes of the trade: the entry goes to the side it was
/// read on (none for a purchase's item list); an entry whose mod rank was not
/// found gets rank 0 and no error.
pub open spec fn resolved_spec(t: PlayerTradeView, side: LogSection, item: crate::trade::TradeItemView) -> PlayerTradeView {
    let fixed = match item.error {
        Some(e) => if contains_seq(e, "Mod Rank not found"@) {
            crate::trade::TradeItemView {
                sub_type: Some(crate::trade::SubTypeView { rank: Some(0), variant: None, amber_stars: None, cyan_stars: None }),
                error: None,
                ..item
            }
        } else {
            item
        },
        None => item,
    };
    match side {
        LogSection::Offered => PlayerTradeView { offered_items: t.offered_items.push(fixed), ..t },
        LogSection::Received => PlayerTradeView { received_items: t.received_items.push(fixed), ..t },
        LogSection::Items => t,
    }
}

impl GdprParser {
    fn body_line(&mut self, lc: &Vec<char>, line: &str, now: i64, d: &TradeDetection)
        requires
            lc@ == line@,
        ensures
            final(self)@ == body_line_spec(old(self)@, line@, now, (d.platinum_name@, d.credits_name@)),
    {
        let taken = match self.section {
            Some(GdprSection::Trades) => self.trade_line(lc, line, d),
            Some(GdprSection::Logins) => self.login_line(lc),
            Some(GdprSection::Purchases) => self.purchase_line(lc, line),
            Some(GdprSection::Transactions) => self.transaction_line(lc, line, now),
            _ => false,
        };
        if !taken {
            self.previous_line = line.to_owned();
        }
    }

    /// Reads one trimmed line of the export (see `step_spec`). A trade that ends
    /// waits in `finished_trade` and an entry to look up in `pending_item`; both
    /// must have been handled before the next line.
    pub fn step(&mut self, line: &str, now: i64, d: &TradeDetection)
        requires
            old(self).finished_trade is None,
            old(self).pending_item is None,
        ensures
            final(self)@ == step_spec(old(self)@, line@, now, (d.platinum_name@, d.credits_name@)),
    {
        let lc = chars_of(line);
        if is_text(&lc, "ACCOUNT") {
            self.flush_account();
            self.section = Some(GdprSection::Account);
            self.current_account = Some(account_view_of_new());
            self.awaiting_account_ips = false;
            return;
        }
        if self.section == Some(GdprSection::Account) && is_rule_exec(&lc) {
            self.flush_account();
            self.section = None;
            self.awaiting_account_ips = false;
            return;
        }
        let hm = header_of(
            &captures("^TRADES\\s*:\\s*(\\d+)", line),
            &captures("^LOGINS\\s*:\\s*(\\d+)", line),
            &captures("^PURCHASES\\s*:\\s*(\\d+)", line),
            &captures("^TRANSACTIONS", line),
            self.previous_line.as_str(),
        );
        match hm {
            HeaderMatch::Section(sec) => {
                self.header(sec);
                return;
            },
            HeaderMatch::Skipped => return,
            HeaderMatch::NotHeader => {},
        }
        if self.section == Some(GdprSection::Account) {
            match self.current_account.take() {
                Some(mut acc) => {
                    let mut w = self.awaiting_account_ips;
                    let handled = acc.read_detail(&lc, &mut w);
                    self.current_account = Some(acc);
                    if handled {
                        self.awaiting_account_ips = w;
                        return;
                    }
                },
                None => {},
            }
        }
        if captures("^\\d{4}-\\d{2}-\\d{2}\\s+\\d{2}:\\d{2}:\\d{2}\\s+UTC$", line).is_some() {
            self.date_line(line, now);
            return;
        }
        self.body_line(&lc, line, now, d);
    }

    /// Adds the looked-up entry for `pending_item` to its side of the trade (see
    /// `resolved_spec`) and clears `pending_item`; nothing else changes.
    pub fn add_resolved_item(&mut self, item: TradeItem)
        ensures
            final(self)@ == (GdprView {
                pending_item: None,
                trade: match (old(self)@.pending_item, old(self)@.trade) {
                    (Some((_, side)), Some(t)) => Some(resolved_spec(t, side, item@)),
                    _ => old(self)@.trade,
                },
                ..old(self)@
            }),
    {
        let side = match self.pending_item.take() {
            Some((_, side)) => side,
            None => return,
        };
        let mut trade = match self.current_trade.take() {
            Some(t) => t,
            None => return,
        };
        let mut it = item;
        let rank_missing = match &it.error {
            Some(e) => crate::text::contains(&crate::text::chars_of_string(e), &lit("Mod Rank not found")),
            None => false,
        };
        if rank_missing {
            it.sub_type = Some(crate::trade::SubType::rank(0));
            it.error = None;
        }
        let ghost iv = it@;
        match side {
            LogSection::Offered => {
                let ghost before = crate::trade::items_view(trade.offered_items@);
                trade.offered_items.push(it);
                assert(crate::trade::items_view(trade.offered_items@) =~= before.push(iv));
            },
            LogSection::Received => {
                let ghost before = crate::trade::items_view(trade.received_items@);
                trade.received_items.push(it);
                assert(crate::trade::items_view(trade.received_items@) =~= before.push(iv));
            },
            LogSection::Items => {},
        }
        self.current_trade = Some(trade);
    }

    /// Stores `finished_trade` in the current account (see `Account::add_trade`)
    /// with the sets the catalogue finds for each side, and clears it. A trade
    /// whose totals leave the `i64` range is not stored; then `false` is returned
    /// and the state is unchanged.
    pub fn store_trade(&mut self, purchase_recipes: &Vec<CraftedSet>, sale_recipes: &Vec<CraftedSet>) -> (stored: bool)
        ensures
            stored == (old(self)@.finished_trade is Some && old(self)@.account is Some && crate::trade::trade_sums_fit(
                old(self)@.finished_trade->0,
            )),
            stored ==> final(self)@ == (GdprView {
                finished_trade: None,
                account: Some(
                    AccountView {
                        trades: old(self)@.account->0.trades.push(
                            stored_trade(old(self)@.finished_trade->0, sets_view(purchase_recipes@), sets_view(sale_recipes@)),
                        ),
                        ..old(self)@.account->0
                    },
                ),
                ..old(self)@
            }),
            !stored ==> final(self)@ == old(self)@,
    {
        if self.finished_trade.is_none() || self.current_account.is_none() {
            return false;
        }
        let fits = match &self.finished_trade {
            Some(t) => trade_totals_fit(t),
            None => false,
        };
        if !fits {
            return false;
        }
        let t = self.finished_trade.take().unwrap();
        let mut acc = self.current_account.take().unwrap();
        acc.add_trade(t, purchase_recipes, sale_recipes);
        self.current_account = Some(acc);
        true
    }

    /// The end of the export: the trade in progress waits in `finished_trade`,
    /// and the login, purchase and transaction in progress join the current
    /// account.
    pub fn finish(&mut self)
        requires
            old(self).finished_trade is None,
        ensures
            match old(self)@.account {
                Some(a) => final(self)@ == (GdprView {
                    finished_trade: old(self)@.trade,
                    trade: None,
                    login: None,
                    purchase: None,
                    transaction: None,
                    account: Some(
                        AccountView {
                            logins: if old(self)@.login is Some { a.logins.push(old(self)@.login->0) } else { a.logins },
                            purchases: if old(self)@.purchase is Some { a.purchases.push(old(self)@.purchase->0) } else { a.purchases },
                            transactions: if old(self)@.transaction is Some {
                                a.transactions.push(old(self)@.transaction->0)
                            } else {
                                a.transactions
                            },
                            ..a
                        },
                    ),
                    ..old(self)@
                }),
                None => final(self)@ == old(self)@,
            },
    {
        let mut acc = match self.current_account.take() {
            Some(a) => a,
            None => return,
        };
        self.finished_trade = self.current_trade.take();
        let ghost bl = acc.logins@.map_values(|l: Login| l@);
        match self.current_login.take() {
            Some(l) => {
                let ghost lv = l@;
                acc.logins.push(l);
                assert(acc.logins@.map_values(|l: Login| l@) =~= bl.push(lv));
            },
            None => {},
        }
        let ghost bp = acc.purchases@.map_values(|p: Purchase| p@);
        match self.current_purchase.take() {
            Some(p) => {
                let ghost pv = p@;
                acc.purchases.push(p);
                assert(acc.purchases@.map_values(|p: Purchase| p@) =~= bp.push(pv));
            },
            None => {},
        }
        let ghost bt = acc.transactions@.map_values(|x: Transaction| x@);
        match self.current_transaction.take() {
            Some(x) => {
                let ghost xv = x@;
                acc.transactions.push(x);
                assert(acc.transactions@.map_values(|x: Transaction| x@) =~= bt.push(xv));
            },
            None => {},
        }
        self.current_account = Some(acc);
    }

    /// Closes the current account: it joins the finished accounts, which are
    /// returned.
    pub fn close(self) -> (accounts: Vec<Account>)
        ensures
            accounts@.map_values(|a: Account| a@) == flushed(self@),
    {
        let mut me = self;
        me.flush_account();
        me.accounts
    }
}

/// The text cut at each line feed (one more piece than there are line feeds).
pub open spec fn pieces(s: Seq<char>) -> Seq<Seq<char>>
    decreases s.len(),
{
    if s.len() == 0 {
        seq![Seq::empty()]
    } else if s.last() == '\n' {
        pieces(s.drop_last()).push(Seq::empty())
    } else {
        let p = pieces(s.drop_last());
        p.update(p.len() - 1, p.last().push(s.last()))
    }
}

/// The lines of a text, each trimmed: the pieces between line feeds, without an
/// empty last piece (a final line feed ends the last line).
pub open spec fn export_lines_spec(s: Seq<char>) -> Seq<Seq<char>> {
    let p = pieces(s);
    let lines = if p.last().len() == 0 { p.drop_last() } else { p };
    lines.map_values(|l: Seq<char>| trim_seq(l))
}

/// The trimmed lines of an export's text (see `export_lines_spec`).
pub fn export_lines(content: &str) -> (res: Vec<String>)
    ensures
        strings_view(res@) == export_lines_spec(content@),
{
    let c = chars_of(content);
    let mut done: Vec<String> = Vec::new();
    let mut cur: Vec<char> = Vec::new();
    let ghost mut raw: Seq<Seq<char>> = Seq::empty();
    let mut i: usize = 0;
    assert(c@.subrange(0, 0) =~= Seq::<char>::empty());
    assert(strings_view(done@) =~= raw.map_values(|l: Seq<char>| trim_seq(l)));
    while i < c.len()
        invariant
            i <= c.len(),
            c@ == content@,
            pieces(c@.subrange(0, i as int)) == raw.push(cur@),
            strings_view(done@) == raw.map_values(|l: Seq<char>| trim_seq(l)),
        decreases c.len() - i,
    {
        proof {
            assert(c@.subrange(0, i + 1).drop_last() =~= c@.subrange(0, i as int));
            assert(c@.subrange(0, i + 1).last() == c@[i as int]);
        }
        if c[i] == '\n' {
            let ghost before = strings_view(done@);
            let t = trim(&cur);
            done.push(string_of(&t));
            proof {
                raw = raw.push(cur@);
            }
            assert(strings_view(done@) =~= before.push(t@));
            assert(strings_view(done@) =~= raw.map_values(|l: Seq<char>| trim_seq(l)));
            cur = Vec::new();
            assert(pieces(c@.subrange(0, i + 1)) =~= raw.push(cur@));
        } else {
            let ghost old_cur = cur@;
            cur.push(c[i]);
            assert(pieces(c@.subrange(0, i + 1)) =~= raw.push(cur@));
        }
        i += 1;
    }
    assert(c@.subrange(0, i as int) =~= c@);
    if cur.len() > 0 {
        let ghost before = strings_view(done@);
        let t = trim(&cur);
        done.push(string_of(&t));
        assert(strings_view(done@) =~= before.push(t@));
        assert(raw.push(cur@).map_values(|l: Seq<char>| trim_seq(l)) =~= before.push(t@));
    } else {
        assert(raw.push(cur@).drop_last() =~= raw);
    }
    done
}

} // verus!
