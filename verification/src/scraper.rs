//! The live trading work list: the entries the scraper works on, their keys and
//! quantities, which workflows an entry runs, and the decisions of the scraper's
//! loop (which orders to remove, when the riven check is due, which errors stop
//! it).
use vstd::prelude::*;
use crate::enums::OrderType;
use crate::market::ItemMarketInfo;
use crate::number::{int_text, i64_text};
use crate::operations::OperationSet;
use crate::sorting::{SortKey, SortKeyView, is_stable_order, keys_view, stable_order};
use crate::text::{concat, chars_of, string_of, chars_of_string};
use crate::trade::{SubType, SubTypeView, opt_sub_view, copy_opt_sub, strings_view};

verus! {

/// The short text of a sub type: its parts that are set, joined by "-": the rank
/// as "R" and the number, the variant as it is, the amber and cyan stars as "A"
/// and "C" and the number.
pub open spec fn short_display_spec(s: SubTypeView) -> Seq<char> {
    join_present(display_parts(s))
}

/// The parts of a sub type's short text, absent where the sub type has none.
pub open spec fn display_parts(s: SubTypeView) -> Seq<Option<Seq<char>>> {
    seq![
        match s.rank { Some(r) => Some(seq!['R'] + int_text(r as int)), None => None },
        s.variant,
        match s.amber_stars { Some(a) => Some(seq!['A'] + int_text(a as int)), None => None },
        match s.cyan_stars { Some(c) => Some(seq!['C'] + int_text(c as int)), None => None },
    ]
}

/// The present parts joined by "-".
pub open spec fn join_present(parts: Seq<Option<Seq<char>>>) -> Seq<char>
    decreases parts.len(),
{
    if parts.len() == 0 {
        Seq::empty()
    } else {
        let head = join_present(parts.drop_last());
        match parts.last() {
            Some(p) => if head.len() == 0 { p } else { head + seq!['-'] + p },
            None => head,
        }
    }
}

fn join_step(head: Vec<char>, part: Option<Vec<char>>) -> (res: Vec<char>)
    ensures
        res@ == match part {
            Some(p) => if head@.len() == 0 { p@ } else { head@ + seq!['-'] + p@ },
            None => head@,
        },
{
    match part {
        Some(p) => if head.len() == 0 {
            p
        } else {
            let mut dash: Vec<char> = Vec::new();
            dash.push('-');
            let a = concat(&head, &dash);
            assert(dash@ =~= seq!['-']);
            concat(&a, &p)
        },
        None => head,
    }
}

fn tagged(tag: char, n: &Option<i64>) -> (res: Option<Vec<char>>)
    ensures
        match *n {
            Some(v) => res is Some && res->0@ == seq![tag] + int_text(v as int),
            None => res is None,
        },
{
    match n {
        Some(v) => {
            let mut t: Vec<char> = Vec::new();
            t.push(tag);
            assert(t@ =~= seq![tag]);
            Some(concat(&t, &i64_text(*v)))
        },
        None => None,
    }
}

impl SubType {
    /// The short text of the sub type (see `short_display_spec`).
    pub fn short_display(&self) -> (res: String)
        ensures
            res@ == short_display_spec(self@),
    {
        let ghost parts = display_parts(self@);
        let a = join_step(Vec::new(), tagged('R', &self.rank));
        assert(parts.subrange(0, 1).drop_last() =~= Seq::<Option<Seq<char>>>::empty());
        assert(join_present(Seq::<Option<Seq<char>>>::empty()) == Seq::<char>::empty());
        assert(a@ == join_present(parts.subrange(0, 1)));
        let v = match &self.variant {
            Some(x) => Some(chars_of_string(x)),
            None => None,
        };
        let b = join_step(a, v);
        assert(parts.subrange(0, 2).drop_last() =~= parts.subrange(0, 1));
        assert(b@ == join_present(parts.subrange(0, 2)));
        let c = join_step(b, tagged('A', &self.amber_stars));
        assert(parts.subrange(0, 3).drop_last() =~= parts.subrange(0, 2));
        assert(c@ == join_present(parts.subrange(0, 3)));
        let d = join_step(c, tagged('C', &self.cyan_stars));
        assert(parts.subrange(0, 4).drop_last() =~= parts.subrange(0, 3));
        assert(d@ == join_present(parts.subrange(0, 4)));
        assert(parts.subrange(0, 4) =~= parts);
        string_of(&d)
    }
}

/// An item the scraper works on, with what to do for it.
#[derive(Debug)]
pub struct ItemEntry {
    pub stock_id: Option<i64>,
    pub wish_list_id: Option<i64>,
    pub wfm_url: String,
    pub wfm_id: String,
    pub sub_type: Option<SubType>,
    pub priority: i64,
    pub buy_quantity: i64,
    pub sell_quantity: i64,
    pub operations: OperationSet,
    pub order_type: String,
    pub buy_market_info: ItemMarketInfo,
    pub sell_market_info: ItemMarketInfo,
    /// Extra facts carried along to the item's order: each a name and its value
    /// written as JSON.
    pub properties: Vec<(String, String)>,
}

/// The contents of extra facts: names and values.
pub open spec fn props_view(v: Seq<(String, String)>) -> Seq<(Seq<char>, Seq<char>)> {
    v.map_values(|p: (String, String)| (p.0@, p.1@))
}

/// A copy of extra facts, with the same contents.
pub fn copy_props(v: &Vec<(String, String)>) -> (res: Vec<(String, String)>)
    ensures
        props_view(res@) == props_view(v@),
{
    let mut out: Vec<(String, String)> = Vec::new();
    let mut i: usize = 0;
    while i < v.len()
        invariant
            i <= v.len(),
            props_view(out@) == props_view(v@.take(i as int)),
        decreases v.len() - i,
    {
        let a = v[i].0.clone();
        let b = v[i].1.clone();
        let p = (a, b);
        let ghost before = out@;
        out.push(p);
        proof {
            assert(out@ == before.push(p));
            assert(a@ == v@[i as int].0@ && b@ == v@[i as int].1@);
            assert(props_view(out@) =~= props_view(before).push((a@, b@)));
            assert(props_view(v@.take(i + 1)) =~= props_view(v@.take(i as int)).push((v@[i as int].0@, v@[i as int].1@)));
            assert(v@.take(i + 1) =~= v@.take(i as int).push(v@[i as int]));
            assert(props_view(out@) =~= props_view(v@.take(i + 1)));
        }
        i = i + 1;
    }
    assert(v@.take(v@.len() as int) =~= v@);
    out
}

/// The contents of a work list entry.
pub struct ItemEntryView {
    pub stock_id: Option<i64>,
    pub wish_list_id: Option<i64>,
    pub wfm_url: Seq<char>,
    pub wfm_id: Seq<char>,
    pub sub_type: Option<SubTypeView>,
    pub priority: i64,
    pub buy_quantity: i64,
    pub sell_quantity: i64,
    pub operations: Seq<Seq<char>>,
    pub order_type: Seq<char>,
    pub buy_market_info: ItemMarketInfo,
    pub sell_market_info: ItemMarketInfo,
    pub properties: Seq<(Seq<char>, Seq<char>)>,
}

impl View for ItemEntry {
    type V = ItemEntryView;

    open spec fn view(&self) -> ItemEntryView {
        ItemEntryView {
            stock_id: self.stock_id,
            wish_list_id: self.wish_list_id,
            wfm_url: self.wfm_url@,
            wfm_id: self.wfm_id@,
            sub_type: opt_sub_view(self.sub_type),
            priority: self.priority,
            buy_quantity: self.buy_quantity,
            sell_quantity: self.sell_quantity,
            operations: self.operations@,
            order_type: self.order_type@,
            buy_market_info: self.buy_market_info,
            sell_market_info: self.sell_market_info,
            properties: props_view(self.properties@),
        }
    }
}

/// The key of an entry: the market URL, with the sub type's short text after a
/// "-" when there is one.
pub open spec fn uuid_spec(e: ItemEntryView) -> Seq<char> {
    match e.sub_type {
        Some(s) => e.wfm_url + seq!['-'] + short_display_spec(s),
        None => e.wfm_url,
    }
}

impl ItemEntry {
    /// An entry with the given parts and an empty market on both sides.
    pub fn new(
        stock_id: Option<i64>,
        wish_list_id: Option<i64>,
        wfm_url: &str,
        wfm_id: &str,
        sub_type: Option<SubType>,
        priority: i64,
        buy_quantity: i64,
        sell_quantity: i64,
        operations: &Vec<String>,
        order_type: &str,
        properties: Vec<(String, String)>,
    ) -> (res: ItemEntry)
        ensures
            res@ == (ItemEntryView {
                stock_id,
                wish_list_id,
                wfm_url: wfm_url@,
                wfm_id: wfm_id@,
                sub_type: opt_sub_view(sub_type),
                priority,
                buy_quantity,
                sell_quantity,
                operations: crate::operations::merge_spec(Seq::empty(), strings_view(operations@)),
                order_type: order_type@,
                buy_market_info: ItemMarketInfo { lowest_price: 0, highest_price: 0, price_range: 0, volume: 0 },
                sell_market_info: ItemMarketInfo { lowest_price: 0, highest_price: 0, price_range: 0, volume: 0 },
                properties: props_view(properties@),
            }),
    {
        ItemEntry {
            stock_id,
            wish_list_id,
            wfm_url: wfm_url.to_owned(),
            wfm_id: wfm_id.to_owned(),
            sub_type,
            priority,
            buy_quantity,
            sell_quantity,
            operations: OperationSet::from_list(operations),
            order_type: order_type.to_owned(),
            buy_market_info: ItemMarketInfo::empty(),
            sell_market_info: ItemMarketInfo::empty(),
            properties,
        }
    }

    /// The entry's key (see `uuid_spec`).
    pub fn uuid(&self) -> (res: String)
        ensures
            res@ == uuid_spec(self@),
    {
        match &self.sub_type {
            Some(s) => {
                let mut dash: Vec<char> = Vec::new();
                dash.push('-');
                assert(dash@ =~= seq!['-']);
                let a = concat(&chars_of_string(&self.wfm_url), &dash);
                let b = concat(&a, &chars_of_string(&s.short_display()));
                string_of(&b)
            },
            None => self.wfm_url.clone(),
        }
    }

    /// The quantity for the side of an order.
    pub fn get_quantity(&self, order_type: OrderType) -> (res: i64)
        ensures
            res == match order_type {
                OrderType::Buy => self.buy_quantity,
                OrderType::Sell => self.sell_quantity,
            },
    {
        match order_type {
            OrderType::Buy => self.buy_quantity,
            OrderType::Sell => self.sell_quantity,
        }
    }

    /// Sets the quantity for the side of an order.
    pub fn set_quantity(&mut self, order_type: OrderType, quantity: i64)
        ensures
            final(self)@ == match order_type {
                OrderType::Buy => ItemEntryView { buy_quantity: quantity, ..old(self)@ },
                OrderType::Sell => ItemEntryView { sell_quantity: quantity, ..old(self)@ },
            },
    {
        match order_type {
            OrderType::Buy => self.buy_quantity = quantity,
            OrderType::Sell => self.sell_quantity = quantity,
        }
    }

    /// Records the live market of both sides.
    pub fn apply_market_info(&mut self, buy: ItemMarketInfo, sell: ItemMarketInfo)
        ensures
            final(self)@ == (ItemEntryView { buy_market_info: buy, sell_market_info: sell, ..old(self)@ }),
    {
        self.buy_market_info = buy;
        self.sell_market_info = sell;
    }
}

/// Which workflows an entry runs: buying (asked for and not for the wish list),
/// the wish list, selling (asked for and in stock).
pub open spec fn tasks_spec(e: ItemEntryView) -> (bool, bool, bool) {
    (
        e.operations.contains("Buy"@) && !e.operations.contains("WishList"@),
        e.operations.contains("WishList"@),
        e.operations.contains("Sell"@) && e.stock_id is Some,
    )
}

/// Which workflows an entry runs (see `tasks_spec`).
pub fn item_tasks(e: &ItemEntry) -> (res: (bool, bool, bool))
    ensures
        res == tasks_spec(e@),
{
    (
        e.operations.has("Buy") && !e.operations.has("WishList"),
        e.operations.has("WishList"),
        e.operations.has("Sell") && e.stock_id.is_some(),
    )
}

/// The order the work list is processed in: by priority, highest first, entries
/// of equal priority in the order they came in.
pub fn priority_order(entries: &Vec<ItemEntry>) -> (o: Vec<usize>)
    ensures
        is_stable_order(
            Seq::new(entries@.len(), |i: int| SortKeyView::Number(entries@[i].priority as i128)),
            o@,
            true,
        ),
{
    let mut keys: Vec<SortKey> = Vec::new();
    let mut i: usize = 0;
    while i < entries.len()
        invariant
            i <= entries.len(),
            keys_view(keys@) == Seq::new(entries@.len(), |k: int| SortKeyView::Number(entries@[k].priority as i128)).subrange(0, i as int),
        decreases entries.len() - i,
    {
        let ghost before = keys_view(keys@);
        let k = SortKey::Number(entries[i].priority as i128);
        keys.push(k);
        assert(keys_view(keys@) =~= before.push(k@));
        assert(keys_view(keys@) =~= Seq::new(entries@.len(), |k: int| SortKeyView::Number(entries@[k].priority as i128)).subrange(0, i + 1));
        i += 1;
    }
    assert(keys_view(keys@) =~= Seq::new(entries@.len(), |k: int| SortKeyView::Number(entries@[k].priority as i128)));
    stable_order(&keys, true)
}

/// Which kinds of trading are switched on.
#[derive(Clone, Copy, Debug, PartialEq, Eq, Structural)]
pub struct TradeModes {
    pub buy: bool,
    pub sell: bool,
    pub wish_list: bool,
}

/// The orders to remove before a pass: every buy then sell order on the first
/// pass when automatic deletion is on; otherwise, the sell orders when buying and
/// the wish list run without selling, the buy orders when only selling runs, and
/// none else.
pub open spec fn orders_to_delete_spec(
    auto_delete: bool,
    just_started: bool,
    modes: TradeModes,
    buy_ids: Seq<Seq<char>>,
    sell_ids: Seq<Seq<char>>,
) -> Seq<Seq<char>> {
    if auto_delete && just_started {
        buy_ids + sell_ids
    } else if modes.buy && !modes.sell && modes.wish_list {
        sell_ids
    } else if !modes.buy && modes.sell && !modes.wish_list {
        buy_ids
    } else {
        Seq::empty()
    }
}

/// The orders to remove before a pass (see `orders_to_delete_spec`).
pub fn orders_to_delete(
    auto_delete: bool,
    just_started: bool,
    modes: TradeModes,
    buy_ids: &Vec<String>,
    sell_ids: &Vec<String>,
) -> (res: Vec<String>)
    ensures
        strings_view(res@) == orders_to_delete_spec(auto_delete, just_started, modes, strings_view(buy_ids@), strings_view(sell_ids@)),
{
    if auto_delete && just_started {
        let mut all = crate::trade::copy_strings(buy_ids);
        let ghost first = strings_view(all@);
        let mut i: usize = 0;
        while i < sell_ids.len()
            invariant
                i <= sell_ids.len(),
                strings_view(all@) == first + strings_view(sell_ids@).subrange(0, i as int),
            decreases sell_ids.len() - i,
        {
            let ghost before = strings_view(all@);
            all.push(sell_ids[i].clone());
            assert(strings_view(all@) =~= before.push(sell_ids@[i as int]@));
            assert(strings_view(sell_ids@).subrange(0, i + 1) =~= strings_view(sell_ids@).subrange(0, i as int).push(sell_ids@[i as int]@));
            i += 1;
        }
        assert(strings_view(sell_ids@).subrange(0, i as int) =~= strings_view(sell_ids@));
        all
    } else if modes.buy && !modes.sell && modes.wish_list {
        crate::trade::copy_strings(sell_ids)
    } else if !modes.buy && modes.sell && !modes.wish_list {
        crate::trade::copy_strings(buy_ids)
    } else {
        let v: Vec<String> = Vec::new();
        assert(strings_view(v@) =~= Seq::<Seq<char>>::empty());
        v
    }
}

/// Whether an item has no market on a side, and which: "selling" without sell
/// orders, else "buying" without buy orders.
pub fn skip_if_no_market_activity(sell_count: usize, buy_count: usize) -> (res: (bool, String))
    ensures
        res.0 == (sell_count == 0 || buy_count == 0),
        res.1@ == if sell_count == 0 {
            "selling"@
        } else if buy_count == 0 {
            "buying"@
        } else {
            ""@
        },
{
    if sell_count == 0 || buy_count == 0 {
        let operation = if sell_count == 0 { "selling" } else { "buying" };
        return (true, operation.to_owned());
    }
    proof {
        reveal_strlit("");
    }
    (false, String::new())
}

/// The budget selection's left-out orders that are deleted after a pass: those
/// with an id that existed before the pass (orders created during it stay until
/// the next one).
pub open spec fn deferred_spec(left_out: Seq<Seq<char>>, existing: Seq<Seq<char>>) -> Seq<Seq<char>>
    decreases left_out.len(),
{
    if left_out.len() == 0 {
        Seq::empty()
    } else {
        let id = left_out.last();
        let rest = deferred_spec(left_out.drop_last(), existing);
        if id.len() > 0 && existing.contains(id) {
            rest.push(id)
        } else {
            rest
        }
    }
}

/// The left-out orders to delete after a pass (see `deferred_spec`).
pub fn deferred_deletions(left_out: &Vec<String>, existing: &Vec<String>) -> (res: Vec<String>)
    ensures
        strings_view(res@) == deferred_spec(strings_view(left_out@), strings_view(existing@)),
{
    let mut res: Vec<String> = Vec::new();
    let mut i: usize = 0;
    assert(strings_view(left_out@).subrange(0, 0) =~= Seq::<Seq<char>>::empty());
    while i < left_out.len()
        invariant
            i <= left_out.len(),
            strings_view(res@) == deferred_spec(strings_view(left_out@).subrange(0, i as int), strings_view(existing@)),
        decreases left_out.len() - i,
    {
        let ghost sub = strings_view(left_out@).subrange(0, i + 1);
        assert(sub.drop_last() =~= strings_view(left_out@).subrange(0, i as int));
        assert(sub.last() == left_out@[i as int]@);
        let id = &left_out[i];
        if chars_of_string(id).len() > 0 && crate::trade::string_listed(existing, id) {
            let ghost before = strings_view(res@);
            res.push(id.clone());
            assert(strings_view(res@) =~= before.push(id@));
        }
        i += 1;
    }
    assert(strings_view(left_out@).subrange(0, i as int) =~= strings_view(left_out@));
    res
}

/// What the scraper trades.
#[derive(Clone, Copy, Debug, PartialEq, Eq, Structural)]
pub enum StockMode {
    All,
    Item,
    Riven,
}

/// What the riven part of a loop turn does.
#[derive(Clone, Copy, Debug, PartialEq, Eq, Structural)]
pub enum RivenTick {
    /// Rivens are not traded.
    Off,
    /// Check the rivens now (and restart the timer).
    Check,
    /// Wait; the check is due in this many seconds.
    Cooldown(u64),
}

/// The riven part of a loop turn: when rivens are traded, check once more time
/// than the interval has passed since the last check, else report the seconds
/// left.
pub open spec fn riven_tick_spec(mode: StockMode, elapsed_secs: u64, elapsed_nanos: u32, interval_secs: u64) -> RivenTick {
    if mode == StockMode::Item {
        RivenTick::Off
    } else if elapsed_secs > interval_secs || (elapsed_secs == interval_secs && elapsed_nanos > 0) {
        RivenTick::Check
    } else {
        RivenTick::Cooldown((interval_secs - elapsed_secs) as u64)
    }
}

/// The riven part of a loop turn (see `riven_tick_spec`); the time since the last
/// check is given in whole seconds and the nanoseconds beyond them.
pub fn riven_tick(mode: StockMode, elapsed_secs: u64, elapsed_nanos: u32, interval_secs: u64) -> (res: RivenTick)
    ensures
        res == riven_tick_spec(mode, elapsed_secs, elapsed_nanos, interval_secs),
{
    if mode == StockMode::Item {
        RivenTick::Off
    } else if elapsed_secs > interval_secs || (elapsed_secs == interval_secs && elapsed_nanos > 0) {
        RivenTick::Check
    } else {
        RivenTick::Cooldown(interval_secs - elapsed_secs)
    }
}

/// Whether items are traded this turn.
pub fn item_turn(mode: StockMode) -> (res: bool)
    ensures
        res == (mode == StockMode::Item || mode == StockMode::All),
{
    mode == StockMode::Item || mode == StockMode::All
}

/// How serious an error is.
#[derive(Clone, Copy, Debug, PartialEq, Eq, Structural)]
pub enum LogLevel {
    Trace,
    Debug,
    Info,
    Warning,
    Error,
    Critical,
}

/// The seriousness of an error of the item check, by its type: parsing, bad
/// request, unknown, server and type errors are critical, the rest warnings.
pub open spec fn item_error_level_spec(err_type: Seq<char>) -> LogLevel {
    if err_type == "ParsingError"@ || err_type == "BadRequest"@ || err_type == "Unknown"@
        || err_type == "InternalServerError"@ || err_type == "InvalidType"@ {
        LogLevel::Critical
    } else {
        LogLevel::Warning
    }
}

/// The seriousness of an error of the item check (see `item_error_level_spec`).
pub fn item_error_level(err_type: &str) -> (res: LogLevel)
    ensures
        res == item_error_level_spec(err_type@),
{
    let t = chars_of(err_type);
    if crate::enums::seq_eq(&t, "ParsingError") || crate::enums::seq_eq(&t, "BadRequest") || crate::enums::seq_eq(&t, "Unknown")
        || crate::enums::seq_eq(&t, "InternalServerError") || crate::enums::seq_eq(&t, "InvalidType") {
        LogLevel::Critical
    } else {
        LogLevel::Warning
    }
}

/// An error of this seriousness stops the scraper.
pub fn stops_scraper(level: LogLevel) -> (res: bool)
    ensures
        res == (level == LogLevel::Critical || level == LogLevel::Error),
{
    level == LogLevel::Critical || level == LogLevel::Error
}

/// The position of the entry with the given key, if any.
pub open spec fn find_key(es: Seq<ItemEntryView>, key: Seq<char>) -> Option<int> {
    if exists|i: int| 0 <= i < es.len() && uuid_spec(es[i]) == key {
        Some(choose|i: int| 0 <= i < es.len() && uuid_spec(es[i]) == key)
    } else {
        None
    }
}

/// No two entries share a key.
pub open spec fn keys_unique(es: Seq<ItemEntryView>) -> bool {
    forall|i: int, j: int| 0 <= i < j < es.len() ==> uuid_spec(#[trigger] es[i]) != uuid_spec(#[trigger] es[j])
}

/// How an entry already in the list changes for a stock item (`stock`) or a
/// wish-list item (`!stock`) of the same key.
pub open spec fn merged_spec(e: ItemEntryView, stock: bool, id: i64, quantity: i64) -> ItemEntryView {
    if stock {
        ItemEntryView {
            priority: 1,
            sell_quantity: quantity,
            stock_id: Some(id),
            operations: crate::operations::add_spec(e.operations, "Sell"@),
            ..e
        }
    } else {
        ItemEntryView {
            priority: 2,
            buy_quantity: quantity,
            wish_list_id: Some(id),
            operations: crate::operations::add_spec(e.operations, "WishList"@),
            ..e
        }
    }
}

/// The work list after adding an entry to buy: it replaces an entry of the same
/// key, or is appended.
pub open spec fn put_spec(es: Seq<ItemEntryView>, e: ItemEntryView) -> Seq<ItemEntryView> {
    match find_key(es, uuid_spec(e)) {
        Some(i) => es.update(i, e),
        None => es.push(e),
    }
}

/// The work list after a stock or wish-list item: an entry of the same key is
/// merged (see `merged_spec`), otherwise `fresh` is appended.
pub open spec fn merge_spec(es: Seq<ItemEntryView>, fresh: ItemEntryView, stock: bool, id: i64, quantity: i64) -> Seq<ItemEntryView> {
    match find_key(es, uuid_spec(fresh)) {
        Some(i) => es.update(i, merged_spec(es[i], stock, id, quantity)),
        None => es.push(fresh),
    }
}

/// The work list: one entry per key.
#[derive(Debug)]
pub struct WorkList {
    pub entries: Vec<ItemEntry>,
}

/// The contents of the work list.
pub open spec fn entries_view(v: Seq<ItemEntry>) -> Seq<ItemEntryView> {
    v.map_values(|e: ItemEntry| e@)
}

impl WorkList {
    /// An empty work list.
    pub fn new() -> (res: WorkList)
        ensures
            entries_view(res.entries@) == Seq::<ItemEntryView>::empty(),
    {
        let r = WorkList { entries: Vec::new() };
        assert(entries_view(r.entries@) =~= Seq::<ItemEntryView>::empty());
        r
    }

    fn position(&self, key: &String) -> (res: Option<usize>)
        requires
            keys_unique(entries_view(self.entries@)),
        ensures
            match res {
                Some(i) => find_key(entries_view(self.entries@), key@) == Some(i as int),
                None => find_key(entries_view(self.entries@), key@) is None,
            },
    {
        let ghost ev = entries_view(self.entries@);
        let mut i: usize = 0;
        while i < self.entries.len()
            invariant
                i <= self.entries.len(),
                ev == entries_view(self.entries@),
                keys_unique(ev),
                forall|k: int| 0 <= k < i ==> uuid_spec(ev[k]) != key@,
            decreases self.entries.len() - i,
        {
            let u = self.entries[i].uuid();
            assert(ev[i as int] == self.entries@[i as int]@);
            if crate::trade::same_string(&u, key) {
                proof {
                    let c = choose|m: int| 0 <= m < ev.len() && uuid_spec(ev[m]) == key@;
                    if c != i {
                        if c < i {
                        } else {
                            assert(uuid_spec(ev[i as int]) != uuid_spec(ev[c]));
                        }
                    }
                }
                return Some(i);
            }
            i += 1;
        }
        None
    }

    /// Adds an entry to buy (see `put_spec`).
    pub fn put(&mut self, e: ItemEntry)
        requires
            keys_unique(entries_view(old(self).entries@)),
        ensures
            keys_unique(entries_view(final(self).entries@)),
            entries_view(final(self).entries@) == put_spec(entries_view(old(self).entries@), e@),
    {
        let key = e.uuid();
        let ghost ev = entries_view(self.entries@);
        let ghost v = e@;
        match self.position(&key) {
            Some(i) => {
                self.entries.set(i, e);
                assert(entries_view(self.entries@) =~= ev.update(i as int, v));
                proof {
                    let nv = entries_view(self.entries@);
                    assert forall|a: int, b: int| 0 <= a < b < nv.len() implies uuid_spec(#[trigger] nv[a]) != uuid_spec(#[trigger] nv[b]) by {
                        if a == i {
                            assert(uuid_spec(nv[a]) == uuid_spec(ev[a]));
                        } else if b == i {
                            assert(uuid_spec(nv[b]) == uuid_spec(ev[b]));
                        }
                    }
                }
            },
            None => {
                self.entries.push(e);
                assert(entries_view(self.entries@) =~= ev.push(v));
            },
        }
    }

    /// Adds a stock item (`stock`) or a wish-list item (`!stock`) with the given id
    /// and quantity; `fresh` is its entry when the key is new (see `merge_spec`).
    pub fn merge(&mut self, fresh: ItemEntry, stock: bool, id: i64, quantity: i64)
        requires
            keys_unique(entries_view(old(self).entries@)),
        ensures
            keys_unique(entries_view(final(self).entries@)),
            entries_view(final(self).entries@) == merge_spec(entries_view(old(self).entries@), fresh@, stock, id, quantity),
    {
        let key = fresh.uuid();
        let ghost ev = entries_view(self.entries@);
        let ghost v = fresh@;
        match self.position(&key) {
            Some(i) => {
                let mut cur = ItemEntry {
                    stock_id: self.entries[i].stock_id,
                    wish_list_id: self.entries[i].wish_list_id,
                    wfm_url: self.entries[i].wfm_url.clone(),
                    wfm_id: self.entries[i].wfm_id.clone(),
                    sub_type: copy_opt_sub(&self.entries[i].sub_type),
                    priority: self.entries[i].priority,
                    buy_quantity: self.entries[i].buy_quantity,
                    sell_quantity: self.entries[i].sell_quantity,
                    operations: self.entries[i].operations.duplicate(),
                    order_type: self.entries[i].order_type.clone(),
                    buy_market_info: self.entries[i].buy_market_info,
                    sell_market_info: self.entries[i].sell_market_info,
                    properties: copy_props(&self.entries[i].properties),
                };
                assert(cur@ == ev[i as int]);
                if stock {
                    cur.priority = 1;
                    cur.sell_quantity = quantity;
                    cur.stock_id = Some(id);
                    cur.operations.add("Sell");
                } else {
                    cur.priority = 2;
                    cur.buy_quantity = quantity;
                    cur.wish_list_id = Some(id);
                    cur.operations.add("WishList");
                }
                let ghost cv = cur@;
                assert(uuid_spec(cv) == uuid_spec(ev[i as int]));
                self.entries.set(i, cur);
                assert(entries_view(self.entries@) =~= ev.update(i as int, cv));
                proof {
                    let nv = entries_view(self.entries@);
                    assert forall|a: int, b: int| 0 <= a < b < nv.len() implies uuid_spec(#[trigger] nv[a]) != uuid_spec(#[trigger] nv[b]) by {
                        if a == i {
                            assert(uuid_spec(nv[a]) == uuid_spec(ev[a]));
                        } else if b == i {
                            assert(uuid_spec(nv[b]) == uuid_spec(ev[b]));
                        }
                    }
                }
            },
            None => {
                self.entries.push(fresh);
                assert(entries_view(self.entries@) =~= ev.push(v));
            },
        }
    }
}

impl ItemEntry {
    /// The entry for an item picked to buy: priority 0, one to buy, "Buy".
    pub fn for_buying(wfm_url: &str, wfm_id: &str, sub_type: Option<SubType>, buy_quantity: i64) -> (res: ItemEntry)
        ensures
            res@.stock_id is None && res@.wish_list_id is None,
            res@.wfm_url == wfm_url@ && res@.wfm_id == wfm_id@,
            res@.sub_type == opt_sub_view(sub_type),
            res@.priority == 0 && res@.buy_quantity == buy_quantity && res@.sell_quantity == 0,
            res@.operations == seq!["Buy"@],
            res@.order_type == "closed"@,
            res@.properties.len() == 0,
    {
        let mut ops: Vec<String> = Vec::new();
        ops.push("Buy".to_owned());
        let e = ItemEntry::new(None, None, wfm_url, wfm_id, sub_type, 0, buy_quantity, 0, &ops, "closed", Vec::new());
        proof {
            assert(strings_view(ops@) =~= seq!["Buy"@]);
            assert(strings_view(ops@).drop_last() =~= Seq::<Seq<char>>::empty());
            assert(crate::operations::merge_spec(Seq::<Seq<char>>::empty(), Seq::<Seq<char>>::empty()) == Seq::<Seq<char>>::empty());
            assert(!Seq::<Seq<char>>::empty().contains("Buy"@));
            assert(crate::operations::merge_spec(Seq::empty(), strings_view(ops@)) =~= seq!["Buy"@]);
        }
        e
    }

    /// The entry for a stock item: priority 1, all it owns to sell, "Sell".
    pub fn for_stock(id: i64, wfm_url: &str, wfm_id: &str, sub_type: Option<SubType>, owned: i64) -> (res: ItemEntry)
        ensures
            res@.stock_id == Some(id) && res@.wish_list_id is None,
            res@.wfm_url == wfm_url@ && res@.wfm_id == wfm_id@,
            res@.sub_type == opt_sub_view(sub_type),
            res@.priority == 1 && res@.buy_quantity == 0 && res@.sell_quantity == owned,
            res@.operations == seq!["Sell"@],
            res@.order_type == "closed"@,
            res@.properties.len() == 0,
    {
        let mut ops: Vec<String> = Vec::new();
        ops.push("Sell".to_owned());
        let e = ItemEntry::new(Some(id), None, wfm_url, wfm_id, sub_type, 1, 0, owned, &ops, "closed", Vec::new());
        proof {
            assert(strings_view(ops@) =~= seq!["Sell"@]);
            assert(strings_view(ops@).drop_last() =~= Seq::<Seq<char>>::empty());
            assert(crate::operations::merge_spec(Seq::<Seq<char>>::empty(), Seq::<Seq<char>>::empty()) == Seq::<Seq<char>>::empty());
            assert(!Seq::<Seq<char>>::empty().contains("Sell"@));
            assert(crate::operations::merge_spec(Seq::empty(), strings_view(ops@)) =~= seq!["Sell"@]);
        }
        e
    }

    /// The entry for a wish-list item: priority 2, the wanted quantity to buy,
    /// "WishList".
    pub fn for_wish_list(id: i64, wfm_url: &str, wfm_id: &str, sub_type: Option<SubType>, quantity: i64) -> (res: ItemEntry)
        ensures
            res@.stock_id is None && res@.wish_list_id == Some(id),
            res@.wfm_url == wfm_url@ && res@.wfm_id == wfm_id@,
            res@.sub_type == opt_sub_view(sub_type),
            res@.priority == 2 && res@.buy_quantity == quantity && res@.sell_quantity == 0,
            res@.operations == seq!["WishList"@],
            res@.order_type == "buy"@,
            res@.properties.len() == 0,
    {
        let mut ops: Vec<String> = Vec::new();
        ops.push("WishList".to_owned());
        let e = ItemEntry::new(None, Some(id), wfm_url, wfm_id, sub_type, 2, quantity, 0, &ops, "buy", Vec::new());
        proof {
            assert(strings_view(ops@) =~= seq!["WishList"@]);
            assert(strings_view(ops@).drop_last() =~= Seq::<Seq<char>>::empty());
            assert(crate::operations::merge_spec(Seq::<Seq<char>>::empty(), Seq::<Seq<char>>::empty()) == Seq::<Seq<char>>::empty());
            assert(!Seq::<Seq<char>>::empty().contains("WishList"@));
            assert(crate::operations::merge_spec(Seq::empty(), strings_view(ops@)) =~= seq!["WishList"@]);
        }
        e
    }
}

/// Whether orders are removed before a pass at all: when conflicting orders or
/// all orders on start are to be removed.
pub fn deletes_orders(delete_conflicting_orders: bool, auto_delete: bool) -> (res: bool)
    ensures
        res == (delete_conflicting_orders || auto_delete),
{
    delete_conflicting_orders || auto_delete
}

/// The scraper's run state: whether it runs, whether this is its first pass,
/// and when it started (seconds on a monotonic clock).
#[derive(Debug)]
pub struct ScraperState {
    pub is_running: bool,
    pub just_started: bool,
    pub started_at: Option<u64>,
}

impl ScraperState {
    /// Not running, the first pass still ahead.
    pub fn new() -> (res: ScraperState)
        ensures
            !res.is_running,
            res.just_started,
            res.started_at is None,
    {
        ScraperState { is_running: false, just_started: true, started_at: None }
    }

    /// Starts at `now`; `false`, with nothing changed, when it already runs.
    pub fn start(&mut self, now: u64) -> (started: bool)
        ensures
            started == !old(self).is_running,
            started ==> final(self).is_running && final(self).just_started && final(self).started_at == Some(now),
            !started ==> final(self).is_running == old(self).is_running && final(self).just_started == old(self).just_started
                && final(self).started_at == old(self).started_at,
    {
        if self.is_running {
            return false;
        }
        self.is_running = true;
        self.just_started = true;
        self.started_at = Some(now);
        true
    }

    /// A pass has ended: the first pass is behind.
    pub fn pass_done(&mut self)
        ensures
            !final(self).just_started,
            final(self).is_running == old(self).is_running,
            final(self).started_at == old(self).started_at,
    {
        self.just_started = false;
    }

    /// Stops; the start time is forgotten.
    pub fn stop(&mut self)
        ensures
            !final(self).is_running,
            final(self).started_at is None,
            final(self).just_started == old(self).just_started,
    {
        self.is_running = false;
        self.started_at = None;
    }

    /// Seconds since the start, 0 when stopped.
    pub fn elapsed(&self, now: u64) -> (res: u64)
        ensures
            res == match self.started_at {
                Some(t) => if now >= t { (now - t) as u64 } else { 0 },
                None => 0,
            },
    {
        match self.started_at {
            Some(t) => if now >= t { now - t } else { 0 },
            None => 0,
        }
    }
}

/// A failure reported by the market service.
#[derive(Clone, Copy, Debug, PartialEq, Eq, Structural)]
pub enum MarketErrorKind {
    AuctionLimitExceeded,
    OrderLimitExceededSamePrice,
    NotFound,
    OrderLimitExceeded,
    RequestError,
    Other,
}

/// How a market failure is treated: its seriousness, and whether the cached
/// orders are to be refreshed first (for limits and missing orders).
pub fn market_error_handling(kind: MarketErrorKind) -> (res: (LogLevel, bool))
    ensures
        res == match kind {
            MarketErrorKind::AuctionLimitExceeded => (LogLevel::Warning, false),
            MarketErrorKind::OrderLimitExceededSamePrice | MarketErrorKind::NotFound
            | MarketErrorKind::OrderLimitExceeded => (LogLevel::Warning, true),
            _ => (LogLevel::Error, false),
        },
{
    match kind {
        MarketErrorKind::AuctionLimitExceeded => (LogLevel::Warning, false),
        MarketErrorKind::OrderLimitExceededSamePrice | MarketErrorKind::NotFound | MarketErrorKind::OrderLimitExceeded => (
            LogLevel::Warning,
            true,
        ),
        _ => (LogLevel::Error, false),
    }
}

/// How a failure to fetch an item's orders is logged: a failed request as an
/// error, anything else as critical.
pub fn fetch_error_level(kind: MarketErrorKind) -> (res: LogLevel)
    ensures
        res == if kind == MarketErrorKind::RequestError { LogLevel::Error } else { LogLevel::Critical },
{
    if kind == MarketErrorKind::RequestError {
        LogLevel::Error
    } else {
        LogLevel::Critical
    }
}

} // verus!
