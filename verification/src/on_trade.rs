//! The trade watcher: a state machine over game-log lines that collects the
//! message of a trade dialog, waits for its outcome, and turns the collected
//! lines into a `PlayerTrade`.
use vstd::prelude::*;
use crate::detection::{
    DetectionStatus, TradeDetection, found, combined, beginning_spec, end_of_trade_spec,
    trade_result_spec, offer_line_spec,
};
use crate::enums::{OrderType, TradeClassification, TradeItemType, TradeResult};
use crate::notification::UIEvent;
use crate::operations::{OperationSet, add_spec, remove_spec};
use crate::text::{chars_of_string, string_of, replace, replace_seq};
use crate::trade::{
    PlayerTrade, PlayerTradeView, TradeItem, TradeItemView, CraftedSet, items_view, opt_sub_view,
    from_string_spec, same_string, same_sub_type, finalize_spec, is_set_spec, sets_view,
    trade_sums_fit, empty_trade,
};

verus! {

/// One line of the game log, with the line before it and how the line before it
/// was detected.
#[derive(Debug)]
pub struct LineEntry {
    pub index: usize,
    pub line: String,
    pub prev_line: String,
    pub prev_detection: DetectionStatus,
}

/// The contents of a log line entry.
pub struct LineEntryView {
    pub index: usize,
    pub line: Seq<char>,
    pub prev_line: Seq<char>,
    pub prev_detection: DetectionStatus,
}

impl View for LineEntry {
    type V = LineEntryView;

    open spec fn view(&self) -> LineEntryView {
        LineEntryView {
            index: self.index,
            line: self.line@,
            prev_line: self.prev_line@,
            prev_detection: self.prev_detection,
        }
    }
}

/// The contents of a sequence of log line entries.
pub open spec fn entries_view(v: Seq<LineEntry>) -> Seq<LineEntryView> {
    v.map_values(|e: LineEntry| e@)
}

/// The entry with line breaks (`\n`, `\r`) removed from its line.
pub open spec fn cleared_spec(e: LineEntryView) -> LineEntryView {
    LineEntryView {
        line: replace_seq(replace_seq(e.line, seq!['\n'], Seq::empty()), seq!['\r'], Seq::empty()),
        ..e
    }
}

impl LineEntry {
    /// A log line entry.
    pub fn new(index: usize, line: &str, prev_line: &str, prev_detection: DetectionStatus) -> (res: LineEntry)
        ensures
            res@ == (LineEntryView { index, line: line@, prev_line: prev_line@, prev_detection }),
    {
        LineEntry { index, line: line.to_owned(), prev_line: prev_line.to_owned(), prev_detection }
    }

    /// A copy with the same contents.
    pub fn duplicate(&self) -> (res: LineEntry)
        ensures
            res@ == self@,
    {
        LineEntry {
            index: self.index,
            line: self.line.clone(),
            prev_line: self.prev_line.clone(),
            prev_detection: self.prev_detection,
        }
    }

    /// Removes line breaks from the line.
    pub fn clear_newlines(&mut self)
        ensures
            final(self)@ == cleared_spec(old(self)@),
    {
        let l = chars_of_string(&self.line);
        let mut nl: Vec<char> = Vec::new();
        nl.push('\n');
        let mut cr: Vec<char> = Vec::new();
        cr.push('\r');
        let empty: Vec<char> = Vec::new();
        assert(nl@ =~= seq!['\n']);
        assert(cr@ =~= seq!['\r']);
        assert(empty@ =~= Seq::<char>::empty());
        let a = replace(&l, &nl, &empty);
        let b = replace(&a, &cr, &empty);
        self.line = string_of(&b);
    }
}

/// The number of consecutive ASCII digits of `s` from index `from`.
pub open spec fn digit_run(s: Seq<char>, from: int) -> int
    decreases s.len() - from,
{
    if from < 0 || from >= s.len() || !crate::number::is_digit(s[from]) {
        0
    } else {
        1 + digit_run(s, from + 1)
    }
}

/// The line opens a new log message: it begins with a timestamp of digits, a
/// point and digits, followed by a space.
pub open spec fn starts_log_spec(s: Seq<char>) -> bool {
    let a = digit_run(s, 0);
    let b = digit_run(s, a + 1);
    &&& a > 0
    &&& a < s.len()
    &&& s[a] == '.'
    &&& b > 0
    &&& a + 1 + b < s.len()
    &&& s[a + 1 + b] == ' '
}

fn digit_run_exec(s: &Vec<char>, from: usize) -> (res: usize)
    requires
        from <= s.len(),
    ensures
        res as int == digit_run(s@, from as int),
        from + res <= s.len(),
{
    let mut i = from;
    while i < s.len() && '0' <= s[i] && s[i] <= '9'
        invariant
            from <= i <= s.len(),
            digit_run(s@, from as int) == (i - from) + digit_run(s@, i as int),
        decreases s.len() - i,
    {
        i += 1;
    }
    i - from
}

/// Whether the line opens a new log message (see `starts_log_spec`).
pub fn is_start_of_log(line: &str) -> (res: bool)
    ensures
        res == starts_log_spec(line@),
{
    let s = crate::text::chars_of(line);
    let a = digit_run_exec(&s, 0);
    if a == 0 || a >= s.len() || s[a] != '.' {
        return false;
    }
    let b = digit_run_exec(&s, a + 1);
    if b == 0 || a + 1 + b >= s.len() {
        return false;
    }
    s[a + 1 + b] == ' '
}

/// What the caller has to do after a log line.
#[derive(Clone, Copy, Debug, PartialEq, Eq, Structural)]
pub enum TradeStep {
    /// Nothing.
    Continue,
    /// A trade dialog opened: start a fresh trade log.
    Started,
    /// The dialog ended with this outcome: process the collected lines
    /// (`start_process_logs`), finalise a successful trade (`trade_accepted`), write
    /// the trade log, then `reset`.
    Ended(TradeResult),
}

/// The trade watcher's state.
#[derive(Debug)]
pub struct OnTradeEvent {
    pub detection: TradeDetection,
    pub logs: Vec<LineEntry>,
    pub current_trade: PlayerTrade,
    pub operations: OperationSet,
}

/// The contents of the trade watcher's state.
pub struct TradeEventView {
    pub logs: Seq<LineEntryView>,
    pub trade: PlayerTradeView,
    pub ops: Seq<Seq<char>>,
}

impl View for OnTradeEvent {
    type V = TradeEventView;

    open spec fn view(&self) -> TradeEventView {
        TradeEventView {
            logs: entries_view(self.logs@),
            trade: self.current_trade@,
            ops: self.operations@,
        }
    }
}

/// The combinations a line may not use: the way the previous line was found, with
/// a whole-line match standing for every combination.
pub open spec fn ignored_for(prev_detection: DetectionStatus) -> Seq<DetectionStatus> {
    seq![if prev_detection == DetectionStatus::Line {
        DetectionStatus::Combined
    } else {
        prev_detection
    }]
}

/// One step of the watcher on one log line: the state afterwards, whether a trade
/// started, the detection status reported, and what the caller has to do.
pub open spec fn process_line_spec(d: TradeDetection, s: TradeEventView, e: LineEntryView, now: i64) -> (
    TradeEventView,
    bool,
    DetectionStatus,
    TradeStep,
) {
    let collecting = s.ops.contains("GettingTradeMessage"@);
    let end = end_of_trade_spec(e.line, e.prev_line, seq![DetectionStatus::Combined]);
    if collecting && found(end) {
        (
            TradeEventView {
                ops: add_spec(remove_spec(s.ops, "GettingTradeMessage"@), "WaitingConfirmation"@),
                ..s
            },
            false,
            end,
            TradeStep::Continue,
        )
    } else if collecting && starts_log_spec(e.line) {
        (s, false, DetectionStatus::NotFound, TradeStep::Continue)
    } else {
        let s1 = if collecting {
            TradeEventView { logs: s.logs.push(cleared_spec(e)), ..s }
        } else {
            s
        };
        let ign = ignored_for(e.prev_detection);
        let start = beginning_spec(d, e.line, e.prev_line, ign);
        if found(start) {
            (
                TradeEventView {
                    ops: add_spec(add_spec(s1.ops, "TradeStarted"@), "GettingTradeMessage"@),
                    trade: PlayerTradeView { trade_time: now, ..s1.trade },
                    ..s1
                },
                true,
                start,
                TradeStep::Started,
            )
        } else if !s1.ops.contains("WaitingConfirmation"@) {
            (s1, false, DetectionStatus::NotFound, TradeStep::Continue)
        } else {
            let (st, r) = trade_result_spec(d, e.line, e.prev_line, ign);
            if r == TradeResult::Unknown {
                (s1, false, st, TradeStep::Continue)
            } else {
                (s1, false, DetectionStatus::NotFound, TradeStep::Ended(r))
            }
        }
    }
}

/// The side `add_item` adds to: received once "Receiving" is recorded, else offered.
/// `None` when adding would overflow a quantity.
pub open spec fn add_item_spec(t: PlayerTradeView, ops: Seq<Seq<char>>, item: TradeItemView) -> Option<
    PlayerTradeView,
> {
    let receiving = ops.contains("Receiving"@);
    let side = if receiving {
        t.received_items
    } else {
        t.offered_items
    };
    let new_side = add_to_side(side, item);
    match new_side {
        Some(ns) => Some(
            if receiving {
                PlayerTradeView { received_items: ns, ..t }
            } else {
                PlayerTradeView { offered_items: ns, ..t }
            },
        ),
        None => None,
    }
}

/// The first entry with the same unique name and sub type as `item`.
pub open spec fn first_same(side: Seq<TradeItemView>, item: TradeItemView) -> Option<int> {
    if exists|j: int| 0 <= j < side.len() && same_entry(side[j], item) {
        Some(choose|j: int| 0 <= j < side.len() && same_entry(side[j], item) && forall|k: int| 0 <= k < j ==> !same_entry(side[k], item))
    } else {
        None
    }
}

/// Two entries describe the same item.
pub open spec fn same_entry(a: TradeItemView, b: TradeItemView) -> bool {
    a.unique_name == b.unique_name && a.sub_type == b.sub_type
}

/// `item` merged into a side: the quantity of the first entry for the same item
/// grows by the item's quantity, or the item is appended; `None` on overflow.
pub open spec fn add_to_side(side: Seq<TradeItemView>, item: TradeItemView) -> Option<Seq<TradeItemView>> {
    match first_same(side, item) {
        Some(j) => {
            let q = side[j].quantity + item.quantity;
            if i64::MIN <= q <= i64::MAX {
                Some(side.update(j, TradeItemView { quantity: q as i64, ..side[j] }))
            } else {
                None
            }
        },
        None => Some(side.push(item)),
    }
}

/// The line at `i` of the collected log, "" past the end.
pub open spec fn log_line(logs: Seq<LineEntryView>, i: int) -> Seq<char> {
    if 0 <= i < logs.len() {
        logs[i].line
    } else {
        Seq::empty()
    }
}

/// How far a detection moves through the lines: two lines for a match across both.
pub open spec fn advance(s: DetectionStatus) -> int {
    if combined(s) {
        2
    } else {
        1
    }
}

/// Processing the collected lines from index `i`: a line naming the partner (not
/// only through the previous line) switches to the received side and sets the
/// partner; any other line found as an item adds it. `None` when a quantity would
/// overflow.
pub open spec fn process_logs_spec(
    d: TradeDetection,
    logs: Seq<LineEntryView>,
    catalog: Seq<Option<(TradeItemView, DetectionStatus)>>,
    i: int,
    t: PlayerTradeView,
    ops: Seq<Seq<char>>,
) -> Option<(PlayerTradeView, Seq<Seq<char>>)>
    decreases logs.len() + 1 - i,
{
    if i < 0 || i >= logs.len() {
        Some((t, ops))
    } else {
        let line = log_line(logs, i);
        let next = log_line(logs, i + 1);
        let (name, st) = offer_line_spec(d, line, next, Seq::empty());
        if found(st) && st != DetectionStatus::PreviousLine {
            process_logs_spec(
                d,
                logs,
                catalog,
                i + advance(st),
                PlayerTradeView { player_name: name, ..t },
                add_spec(ops, "Receiving"@),
            )
        } else {
            let (st2, item) = from_string_spec(line, next, d, Seq::empty(), catalog[i]);
            if found(st2) {
                match add_item_spec(t, ops, item) {
                    Some(t2) => process_logs_spec(d, logs, catalog, i + advance(st2), t2, ops),
                    None => None,
                }
            } else {
                process_logs_spec(d, logs, catalog, i + advance(st2), t, ops)
            }
        }
    }
}

/// The contents of catalogue results, one per collected line.
pub open spec fn catalog_view(c: Seq<Option<(TradeItem, DetectionStatus)>>) -> Seq<
    Option<(TradeItemView, DetectionStatus)>,
> {
    c.map_values(
        |m: Option<(TradeItem, DetectionStatus)>|
            match m {
                Some(p) => Some((p.0@, p.1)),
                None => None,
            },
    )
}

/// What the outcome of a processed trade tells the user: the list to refresh, the
/// kind and colour of the notification.
pub open spec fn outcome_spec(ops: Seq<Seq<char>>) -> (Option<UIEvent>, Seq<char>, Seq<char>) {
    if ops.contains("AutoTrade"@) {
        if ops.contains("MultipleItems"@) {
            (None, "multiple_items"@, "yellow"@)
        } else if ops.contains("StockRiven_Deleted"@) {
            (Some(UIEvent::RefreshStockRivens), "success"@, "green.7"@)
        } else if !ops.contains("WishListItemBought_NotFound"@) {
            (Some(UIEvent::RefreshWishListItems), "success"@, "green.7"@)
        } else if ops.contains("ItemSell_Deleted"@) || ops.contains("ItemSell_Updated"@)
            || ops.contains("ItemBuy_Created"@) || ops.contains("ItemBuy_Updated"@) {
            (Some(UIEvent::RefreshStockItems), "success"@, "green.7"@)
        } else {
            (None, ""@, ""@)
        }
    } else {
        (None, ""@, ""@)
    }
}

impl OnTradeEvent {
    /// A watcher with the given patterns and an empty trade at `now`.
    pub fn new(detection: TradeDetection, now: i64) -> (res: OnTradeEvent)
        ensures
            res.detection == detection,
            res@.logs == Seq::<LineEntryView>::empty(),
            res@.ops == Seq::<Seq<char>>::empty(),
            res@.trade == empty_trade(now),
    {
        let r = OnTradeEvent {
            detection,
            logs: Vec::new(),
            current_trade: PlayerTrade::new(now),
            operations: OperationSet::new(),
        };
        assert(entries_view(r.logs@) =~= Seq::<LineEntryView>::empty());
        r
    }

    /// Forgets the collected lines and the trade, which starts anew at `now`.
    pub fn reset(&mut self, now: i64)
        ensures
            final(self).detection == old(self).detection,
            final(self)@.logs == Seq::<LineEntryView>::empty(),
            final(self)@.ops == Seq::<Seq<char>>::empty(),
            final(self)@.trade == empty_trade(now),
    {
        self.logs = Vec::new();
        self.current_trade = PlayerTrade::new(now);
        self.operations = OperationSet::new();
        assert(entries_view(self.logs@) =~= Seq::<LineEntryView>::empty());
    }

    /// One step on one log line (see `process_line_spec`); `now` is the time a
    /// trade that starts on this line gets.
    pub fn process_line(&mut self, entry: &LineEntry, now: i64) -> (res: (bool, DetectionStatus, TradeStep))
        ensures
            final(self).detection == old(self).detection,
            (final(self)@, res.0, res.1, res.2) == process_line_spec(old(self).detection, old(self)@, entry@, now),
    {
        let collecting = self.operations.has("GettingTradeMessage");
        if collecting {
            let mut ign: Vec<DetectionStatus> = Vec::new();
            ign.push(DetectionStatus::Combined);
            assert(ign@ =~= seq![DetectionStatus::Combined]);
            let trade_end = self.detection.is_end_of_trade(
                entry.line.as_str(),
                entry.prev_line.as_str(),
                ign.as_slice(),
            );
            if trade_end.is_found() {
                self.operations.remove("GettingTradeMessage");
                self.operations.add("WaitingConfirmation");
                return (false, trade_end, TradeStep::Continue);
            } else if !is_start_of_log(entry.line.as_str()) {
                let mut lie = entry.duplicate();
                lie.clear_newlines();
                let ghost before = self.logs@;
                let ghost lv = lie@;
                self.logs.push(lie);
                assert(entries_view(self.logs@) =~= entries_view(before).push(lv));
            } else {
                return (false, DetectionStatus::NotFound, TradeStep::Continue);
            }
        }
        let mut ign: Vec<DetectionStatus> = Vec::new();
        let mut line_only: Vec<DetectionStatus> = Vec::new();
        line_only.push(DetectionStatus::Line);
        ign.push(entry.prev_detection.replace_if_matches(line_only.as_slice(), DetectionStatus::Combined));
        proof {
            assert(line_only@ =~= seq![DetectionStatus::Line]);
            assert(line_only@.contains(entry.prev_detection) <==> entry.prev_detection == DetectionStatus::Line) by {
                if entry.prev_detection == DetectionStatus::Line {
                    assert(line_only@[0] == DetectionStatus::Line);
                }
            }
            assert(ign@ =~= ignored_for(entry.prev_detection));
        }
        let trade_start = self.detection.is_beginning_of_trade(
            entry.line.as_str(),
            entry.prev_line.as_str(),
            ign.as_slice(),
        );
        if trade_start.is_found() {
            self.operations.add("TradeStarted");
            self.current_trade.trade_time = now;
            self.operations.add("GettingTradeMessage");
            return (true, trade_start, TradeStep::Started);
        }
        if !self.operations.has("WaitingConfirmation") {
            return (false, DetectionStatus::NotFound, TradeStep::Continue);
        }
        let (status, result) = self.detection.get_trade_result(
            entry.line.as_str(),
            entry.prev_line.as_str(),
            ign.as_slice(),
        );
        if result == TradeResult::Unknown {
            return (false, status, TradeStep::Continue);
        }
        (false, DetectionStatus::NotFound, TradeStep::Ended(result))
    }

    /// Adds an entry to the side being collected (received once "Receiving" is
    /// recorded, else offered), merging it into the first entry for the same item.
    pub fn add_item(&mut self, item: TradeItem)
        requires
            add_item_spec(old(self)@.trade, old(self)@.ops, item@) is Some,
        ensures
            final(self).detection == old(self).detection,
            final(self)@.logs == old(self)@.logs,
            final(self)@.ops == old(self)@.ops,
            Some(final(self)@.trade) == add_item_spec(old(self)@.trade, old(self)@.ops, item@),
    {
        if self.operations.has("Receiving") {
            add_to_items(&mut self.current_trade.received_items, item);
        } else {
            add_to_items(&mut self.current_trade.offered_items, item);
        }
    }

    /// Turns the collected lines into the trade's partner and entries (see
    /// `process_logs_spec`). `catalog[i]` is what the item catalogue resolves the
    /// lines `i` and `i + 1` to after `TradeItem::split_last_item`.
    pub fn start_process_logs(&mut self, catalog: &Vec<Option<(TradeItem, DetectionStatus)>>)
        requires
            catalog.len() == old(self).logs.len(),
            process_logs_spec(
                old(self).detection,
                old(self)@.logs,
                catalog_view(catalog@),
                0,
                old(self)@.trade,
                old(self)@.ops,
            ) is Some,
        ensures
            final(self).detection == old(self).detection,
            final(self)@.logs == old(self)@.logs,
            Some((final(self)@.trade, final(self)@.ops)) == process_logs_spec(
                old(self).detection,
                old(self)@.logs,
                catalog_view(catalog@),
                0,
                old(self)@.trade,
                old(self)@.ops,
            ),
    {
        let ghost cv = catalog_view(catalog@);
        let ghost target = process_logs_spec(self.detection, self@.logs, cv, 0, self@.trade, self@.ops);
        let mut i: usize = 0;
        let n = self.logs.len();
        while i < n
            invariant
                n == self.logs.len(),
                catalog.len() == n,
                cv == catalog_view(catalog@),
                self.detection == old(self).detection,
                self@.logs == old(self)@.logs,
                target == process_logs_spec(self.detection, self@.logs, cv, i as int, self@.trade, self@.ops),
                target is Some,
                i <= n,
            decreases n - i,
        {
            let step = self.process_log_at(i, catalog);
            if step > n - i {
                i = n;
            } else {
                i += step;
            }
        }
    }

    /// Processes the collected line at `i` (one step of `process_logs_spec`) and
    /// returns how many lines it took.
    fn process_log_at(&mut self, i: usize, catalog: &Vec<Option<(TradeItem, DetectionStatus)>>) -> (step: usize)
        requires
            i < old(self).logs.len(),
            catalog.len() == old(self).logs.len(),
            process_logs_spec(
                old(self).detection,
                old(self)@.logs,
                catalog_view(catalog@),
                i as int,
                old(self)@.trade,
                old(self)@.ops,
            ) is Some,
        ensures
            final(self).detection == old(self).detection,
            final(self)@.logs == old(self)@.logs,
            step == 1 || step == 2,
            process_logs_spec(
                old(self).detection,
                old(self)@.logs,
                catalog_view(catalog@),
                i as int,
                old(self)@.trade,
                old(self)@.ops,
            ) == process_logs_spec(
                final(self).detection,
                final(self)@.logs,
                catalog_view(catalog@),
                i + step,
                final(self)@.trade,
                final(self)@.ops,
            ),
    {
        let ghost cv = catalog_view(catalog@);
        let ghost lv = self@.logs;
        let n = self.logs.len();
        let line = self.logs[i].line.clone();
        let next = if i + 1 < n {
            self.logs[i + 1].line.clone()
        } else {
            String::new()
        };
        assert(line@ == log_line(lv, i as int));
        assert(next@ == log_line(lv, i + 1));
        let empty: Vec<DetectionStatus> = Vec::new();
        assert(empty@ =~= Seq::<DetectionStatus>::empty());
        let (player_name, status) = self.detection.is_offer_line(line.as_str(), next.as_str(), empty.as_slice());
        if status.is_found() && status != DetectionStatus::PreviousLine {
            self.operations.add("Receiving");
            self.current_trade.player_name = player_name;
            return if status.is_combined() { 2 } else { 1 };
        }
        let cm = copy_catalog_entry(&catalog[i]);
        assert(cv[i as int] == catalog_view(catalog@)[i as int]);
        let (st2, item) = TradeItem::from_string(line.as_str(), next.as_str(), &self.detection, empty.as_slice(), cm);
        if st2.is_found() {
            self.add_item(item);
        }
        if st2.is_combined() { 2 } else { 1 }
    }

    /// Finalises a successful trade (`finalize_trade`, then `finalize_items` with the
    /// recipes the catalogue finds for each side) and, for a sale or a purchase,
    /// returns how the partner sees it and the order side to settle: a sale is the
    /// partner's purchase from our sell order, a purchase the partner's sale to our
    /// buy order.
    pub fn trade_accepted(&mut self, purchase_recipes: &Vec<CraftedSet>, sale_recipes: &Vec<CraftedSet>) -> (res:
        Option<(TradeClassification, OrderType)>)
        requires
            trade_sums_fit(old(self)@.trade),
        ensures
            final(self).detection == old(self).detection,
            final(self)@.logs == old(self)@.logs,
            final(self)@.ops == old(self)@.ops,
            final(self)@.trade == is_set_spec(
                is_set_spec(
                    finalize_spec(old(self)@.trade),
                    TradeClassification::Purchase,
                    sets_view(purchase_recipes@),
                ),
                TradeClassification::Sale,
                sets_view(sale_recipes@),
            ),
            res == match final(self)@.trade.trade_type {
                TradeClassification::Sale => Some((TradeClassification::Purchase, OrderType::Sell)),
                TradeClassification::Purchase => Some((TradeClassification::Sale, OrderType::Buy)),
                _ => None,
            },
    {
        self.current_trade.finalize_trade();
        self.current_trade.finalize_items(purchase_recipes, sale_recipes);
        match self.current_trade.trade_type {
            TradeClassification::Sale => Some((TradeClassification::Purchase, OrderType::Sell)),
            TradeClassification::Purchase => Some((TradeClassification::Sale, OrderType::Buy)),
            _ => None,
        }
    }
}

/// A copy of one catalogue result.
fn copy_catalog_entry(c: &Option<(TradeItem, DetectionStatus)>) -> (res: Option<(TradeItem, DetectionStatus)>)
    ensures
        match (res, *c) {
            (Some(a), Some(b)) => a.0@ == b.0@ && a.1 == b.1,
            (None, None) => true,
            _ => false,
        },
{
    match c {
        Some((t, s)) => Some((t.duplicate(), *s)),
        None => None,
    }
}

/// Merges `item` into `side` (see `add_to_side`).
fn add_to_items(side: &mut Vec<TradeItem>, item: TradeItem)
    requires
        add_to_side(items_view(old(side)@), item@) is Some,
    ensures
        Some(items_view(final(side)@)) == add_to_side(items_view(old(side)@), item@),
{
    let ghost sv = items_view(side@);
    let mut j: usize = 0;
    while j < side.len()
        invariant
            j <= side.len(),
            sv == items_view(side@),
            side@ == old(side)@,
            add_to_side(sv, item@) is Some,
            forall|k: int| 0 <= k < j ==> !same_entry(sv[k], item@),
        decreases side.len() - j,
    {
        if same_string(&side[j].unique_name, &item.unique_name) && same_sub_type(
            &side[j].sub_type,
            &item.sub_type,
        ) {
            proof {
                assert(same_entry(sv[j as int], item@));
                let f = first_same(sv, item@);
                assert(f == Some(j as int)) by {
                    let c = choose|m: int| 0 <= m < sv.len() && same_entry(sv[m], item@) && forall|k: int| 0 <= k < m ==> !same_entry(sv[k], item@);
                    assert(0 <= j < sv.len() && same_entry(sv[j as int], item@) && forall|k: int| 0 <= k < j ==> !same_entry(sv[k], item@));
                    if c < j {
                    } else if c > j {
                        assert(!same_entry(sv[j as int], item@));
                    }
                }
            }
            assert(sv[j as int] == side@[j as int]@);
            let q = side[j].quantity + item.quantity;
            let mut e = side[j].duplicate();
            e.quantity = q;
            let ghost ev = e@;
            side.set(j, e);
            assert(items_view(side@) =~= sv.update(j as int, ev));
            return;
        }
        j += 1;
    }
    let ghost iv = item@;
    side.push(item);
    assert(items_view(side@) =~= sv.push(iv));
}

/// What the outcome of a processed trade tells the user (see `outcome_spec`).
pub fn resolve_outcome(operations: &OperationSet) -> (res: (Option<UIEvent>, &'static str, &'static str))
    ensures
        (res.0, res.1@, res.2@) == outcome_spec(operations@),
{
    if operations.has("AutoTrade") {
        if operations.has("MultipleItems") {
            (None, "multiple_items", "yellow")
        } else if operations.has("StockRiven_Deleted") {
            (Some(UIEvent::RefreshStockRivens), "success", "green.7")
        } else if !operations.has("WishListItemBought_NotFound") {
            (Some(UIEvent::RefreshWishListItems), "success", "green.7")
        } else if operations.has("ItemSell_Deleted") || operations.has("ItemSell_Updated")
            || operations.has("ItemBuy_Created") || operations.has("ItemBuy_Updated") {
            (Some(UIEvent::RefreshStockItems), "success", "green.7")
        } else {
            (None, "", "")
        }
    } else {
        (None, "", "")
    }
}

/// The item name recorded as "Name: ..." ("Unknown Item" when none) and the
/// quantity recorded as "Quantity: ..." (0 when none or unreadable).
pub fn outcome_name_and_quantity(operations: &OperationSet) -> (res: (String, i64))
    ensures
        res.0@ == match crate::operations::value_after_spec(operations@, "Name"@) {
            Some(v) => v,
            None => "Unknown Item"@,
        },
        res.1 == match crate::operations::value_after_spec(operations@, "Quantity"@) {
            Some(v) => match crate::number::parse_i64_spec(v) {
                Some(q) => q,
                None => 0,
            },
            None => 0,
        },
{
    let name = match operations.get_value_after("Name") {
        Some(n) => n,
        None => "Unknown Item".to_owned(),
    };
    let quantity = match operations.get_value_after("Quantity") {
        Some(q) => match crate::number::parse_i64(&chars_of_string(&q)) {
            Some(v) => v,
            None => 0,
        },
        None => 0,
    };
    (name, quantity)
}

/// Several entries, or one that needs its sub type chosen, need the trade
/// processing window.
pub fn needs_multi_processing(items: &Vec<TradeItem>, item: &TradeItem) -> (res: bool)
    ensures
        res == (items.len() > 1 || item.properties.require_sub_type),
{
    items.len() > 1 || item.properties.require_sub_type
}

/// The trade is settled automatically only when automatic trading is on and the
/// item, or its set, was found.
pub fn auto_trade_allowed(operations: &OperationSet) -> (res: bool)
    ensures
        res == ((operations@.contains("Found"@) || operations@.contains("SetFound"@))
            && operations@.contains("AutoTrade"@)),
{
    (operations.has("Found") || operations.has("SetFound")) && operations.has("AutoTrade")
}

/// Where a traded item is settled: imprints as a plain transaction, unveiled rivens
/// against the riven stock, everything else against the wish list, then the item
/// stock.
#[derive(Clone, Copy, Debug, PartialEq, Eq, Structural)]
pub enum TradeRoute {
    Transaction,
    Riven,
    WishListThenStock,
}

/// Where an item of the given type is settled.
pub fn trade_item_route(item_type: TradeItemType) -> (res: TradeRoute)
    ensures
        res == (if item_type == TradeItemType::Imprint {
            TradeRoute::Transaction
        } else if item_type == TradeItemType::RivenUnVeiled {
            TradeRoute::Riven
        } else {
            TradeRoute::WishListThenStock
        }),
{
    if item_type == TradeItemType::Imprint {
        TradeRoute::Transaction
    } else if item_type == TradeItemType::RivenUnVeiled {
        TradeRoute::Riven
    } else {
        TradeRoute::WishListThenStock
    }
}


/// The total quantity of some entries.
pub open spec fn quantity_sum(items: Seq<TradeItemView>) -> int
    decreases items.len(),
{
    if items.len() == 0 {
        0
    } else {
        quantity_sum(items.drop_last()) + items.last().quantity
    }
}

/// Replacing one entry changes the total by the change of its quantity.
pub proof fn lemma_quantity_sum_update(items: Seq<TradeItemView>, j: int, x: TradeItemView)
    requires
        0 <= j < items.len(),
    ensures
        quantity_sum(items.update(j, x)) == quantity_sum(items) - items[j].quantity + x.quantity,
    decreases items.len(),
{
    let u = items.update(j, x);
    if j == items.len() - 1 {
        assert(u.drop_last() =~= items.drop_last());
    } else {
        lemma_quantity_sum_update(items.drop_last(), j, x);
        assert(u.drop_last() =~= items.drop_last().update(j, x));
    }
}

proof fn lemma_first_witness(side: Seq<TradeItemView>, item: TradeItemView, j0: int)
    requires
        0 <= j0 < side.len(),
        same_entry(side[j0], item),
    ensures
        exists|j: int| 0 <= j < side.len() && same_entry(side[j], item) && forall|k: int| 0 <= k < j ==> !same_entry(side[k], item),
    decreases j0,
{
    if exists|k: int| 0 <= k < j0 && same_entry(side[k], item) {
        let k = choose|k: int| 0 <= k < j0 && same_entry(side[k], item);
        lemma_first_witness(side, item, k);
    } else {
        assert(forall|k: int| 0 <= k < j0 ==> !same_entry(side[k], item));
    }
}

/// The first entry for the same item is in range and is for the same item.
pub proof fn lemma_first_same(side: Seq<TradeItemView>, item: TradeItemView)
    ensures
        first_same(side, item) matches Some(j) ==> 0 <= j < side.len() && same_entry(side[j], item),
{
    if exists|j: int| 0 <= j < side.len() && same_entry(side[j], item) {
        let j0 = choose|j: int| 0 <= j < side.len() && same_entry(side[j], item);
        lemma_first_witness(side, item, j0);
    }
}

/// Adding an entry to a trade raises the total quantity of the side being
/// collected by the entry's quantity and leaves the other side alone; the side
/// keeps its length when an entry for the same item was there, and grows by
/// one otherwise.
pub proof fn lemma_add_item_quantity(t: PlayerTradeView, ops: Seq<Seq<char>>, item: TradeItemView)
    ensures
        add_item_spec(t, ops, item) matches Some(u) ==> {
            let receiving = ops.contains("Receiving"@);
            let (old_side, new_side) = if receiving {
                (t.received_items, u.received_items)
            } else {
                (t.offered_items, u.offered_items)
            };
            &&& quantity_sum(new_side) == quantity_sum(old_side) + item.quantity
            &&& (first_same(old_side, item) is Some ==> new_side.len() == old_side.len())
            &&& (first_same(old_side, item) is None ==> new_side == old_side.push(item))
            &&& (receiving ==> u.offered_items == t.offered_items)
            &&& (!receiving ==> u.received_items == t.received_items)
        },
{
    let receiving = ops.contains("Receiving"@);
    let side = if receiving { t.received_items } else { t.offered_items };
    lemma_first_same(side, item);
    match first_same(side, item) {
        Some(j) => {
            let q = side[j].quantity + item.quantity;
            if i64::MIN <= q <= i64::MAX {
                lemma_quantity_sum_update(side, j, TradeItemView { quantity: q as i64, ..side[j] });
            }
        },
        None => {
            assert(side.push(item).drop_last() =~= side);
        },
    }
}
} // verus!
