//! Detection of trade dialogs in the game log.
//!
//! A log message may be wrapped across two physical lines, so every pattern is
//! looked for in the current line, then in the previous line, then in the two
//! concatenations; the result says where it was found.
use vstd::prelude::*;
use crate::text::{
    chars_of, chars_of_string, concat, contains, contains_seq, before_first,
    ends_with_seq, find, lemma_find_seq, replace, replace_seq, slice, starts_with_seq,
    str_contains, string_of, strip_prefix, strip_suffix, trim, trim_seq, lemma_remove_char, lemma_trim,
};
use crate::enums::{TradeItemType, TradeResult};

verus! {

/// Where a pattern was found.
#[derive(Clone, Copy, Debug, PartialEq, Eq, Structural)]
pub enum DetectionStatus {
    NotFound,
    Line,
    PreviousLine,
    Combined,
    LineThenPreviousLine,
    PreviousLineThenLine,
}

/// The pattern was found somewhere.
pub open spec fn found(s: DetectionStatus) -> bool {
    s != DetectionStatus::NotFound
}

/// The match spans both lines.
pub open spec fn combined(s: DetectionStatus) -> bool {
    s == DetectionStatus::Combined || s == DetectionStatus::LineThenPreviousLine || s
        == DetectionStatus::PreviousLineThenLine
}

impl DetectionStatus {
    /// The pattern was found somewhere.
    pub fn is_found(&self) -> (res: bool)
        ensures
            res == found(*self),
    {
        match self {
            DetectionStatus::NotFound => false,
            _ => true,
        }
    }

    /// The match spans both lines.
    pub fn is_combined(&self) -> (res: bool)
        ensures
            res == combined(*self),
    {
        match self {
            DetectionStatus::Combined | DetectionStatus::LineThenPreviousLine
            | DetectionStatus::PreviousLineThenLine => true,
            _ => false,
        }
    }

    /// `replacement` when this status is one of `targets`, else this status.
    pub fn replace_if_matches(&self, targets: &[DetectionStatus], replacement: DetectionStatus) -> (res:
        DetectionStatus)
        ensures
            res == (if targets@.contains(*self) {
                replacement
            } else {
                *self
            }),
    {
        if slice_contains(targets, *self) {
            replacement
        } else {
            *self
        }
    }
}

/// Whether `x` is one of `v`.
pub fn slice_contains(v: &[DetectionStatus], x: DetectionStatus) -> (res: bool)
    ensures
        res == v@.contains(x),
{
    let mut i: usize = 0;
    while i < v.len()
        invariant
            i <= v.len(),
            forall|k: int| 0 <= k < i ==> v@[k] != x,
        decreases v.len() - i,
    {
        if v[i] == x {
            return true;
        }
        i += 1;
    }
    false
}

/// A way of matching is switched off: it is listed, or it spans both lines and
/// `Combined` is listed.
pub open spec fn ignored_spec(ignored: Seq<DetectionStatus>, s: DetectionStatus) -> bool {
    ignored.contains(s) || (combined(s) && ignored.contains(DetectionStatus::Combined))
}

/// Whether a way of matching is switched off by `ignored`.
pub fn is_ignored(ignored: &[DetectionStatus], s: DetectionStatus) -> (res: bool)
    ensures
        res == ignored_spec(ignored@, s),
{
    slice_contains(ignored, s) || (s.is_combined() && slice_contains(
        ignored,
        DetectionStatus::Combined,
    ))
}

/// Where `target` is found: in `line`; else, unless switched off, across the
/// break of `line + prev` or of `prev + line` (a match that lies wholly in the
/// previous line does not count). The text is the one it was found in (`line`
/// when it was found nowhere). This rule is the library's own definition of
/// how a message wrapped over two log lines is matched.
pub open spec fn combine_spec(
    line: Seq<char>,
    prev: Seq<char>,
    target: Seq<char>,
    ignored: Seq<DetectionStatus>,
) -> (Seq<char>, DetectionStatus) {
    if contains_seq(line, target) {
        (line, DetectionStatus::Line)
    } else if contains_seq(prev, target) {
        (line, DetectionStatus::NotFound)
    } else if !ignored_spec(ignored, DetectionStatus::LineThenPreviousLine) && contains_seq(
        line + prev,
        target,
    ) {
        (line + prev, DetectionStatus::LineThenPreviousLine)
    } else if !ignored_spec(ignored, DetectionStatus::PreviousLineThenLine) && contains_seq(
        prev + line,
        target,
    ) {
        (prev + line, DetectionStatus::PreviousLineThenLine)
    } else {
        (line, DetectionStatus::NotFound)
    }
}

/// `combine_spec` on character vectors.
pub fn combine_chars(
    line: &Vec<char>,
    prev: &Vec<char>,
    target: &Vec<char>,
    ignored: &[DetectionStatus],
) -> (res: (Vec<char>, DetectionStatus))
    ensures
        (res.0@, res.1) == combine_spec(line@, prev@, target@, ignored@),
{
    if contains(line, target) {
        return (line.clone(), DetectionStatus::Line);
    }
    if contains(prev, target) {
        return (line.clone(), DetectionStatus::NotFound);
    }
    if !is_ignored(ignored, DetectionStatus::LineThenPreviousLine) {
        let lp = concat(line, prev);
        if contains(&lp, target) {
            return (lp, DetectionStatus::LineThenPreviousLine);
        }
    }
    if !is_ignored(ignored, DetectionStatus::PreviousLineThenLine) {
        let pl = concat(prev, line);
        if contains(&pl, target) {
            return (pl, DetectionStatus::PreviousLineThenLine);
        }
    }
    (line.clone(), DetectionStatus::NotFound)
}

/// Looks for `target` in `line`, `prev_line` and their concatenations (see
/// `combine_spec`).
pub fn combine_and_detect_match(
    line: &str,
    prev_line: &str,
    target: &str,
    ignored: &[DetectionStatus],
) -> (res: (String, DetectionStatus))
    ensures
        (res.0@, res.1) == combine_spec(line@, prev_line@, target@, ignored@),
{
    let l = chars_of(line);
    let p = chars_of(prev_line);
    let t = chars_of(target);
    let (text, status) = combine_chars(&l, &p, &t, ignored);
    (string_of(&text), status)
}

/// The patterns of one game language.
#[derive(Debug)]
pub struct TradeDetection {
    pub start: String,
    pub confirmation_line: String,
    pub failed_line: String,
    pub cancelled_line: String,
    pub receive_line_first_part: String,
    pub receive_line_second_part: String,
    pub platinum_name: String,
    pub credits_name: String,
    pub imprint_name: String,
}

/// The first of the two patterns `a` and `b` that is found.
pub open spec fn first_of_two(
    line: Seq<char>,
    prev: Seq<char>,
    a: Seq<char>,
    b: Seq<char>,
    ignored: Seq<DetectionStatus>,
) -> (Seq<char>, DetectionStatus) {
    let ra = combine_spec(line, prev, a, ignored);
    if found(ra.1) {
        ra
    } else {
        let rb = combine_spec(line, prev, b, ignored);
        if found(rb.1) {
            rb
        } else {
            (line, DetectionStatus::NotFound)
        }
    }
}

/// Status of the two dialog-box patterns.
pub open spec fn dialog_spec(line: Seq<char>, prev: Seq<char>, ignored: Seq<DetectionStatus>) -> DetectionStatus {
    first_of_two(
        line,
        prev,
        "[Info]: Dialog.lua: Dialog::CreateOkCancel(description="@,
        "[Info]: Dialog.lua: Dialog::CreateOk(description="@,
        ignored,
    ).1
}

/// Status of a trade-result pattern, counted only on a dialog line unless the
/// dialog check is skipped.
pub open spec fn detect_state_spec(
    line: Seq<char>,
    prev: Seq<char>,
    target: Seq<char>,
    ignored: Seq<DetectionStatus>,
    skip_dialog_check: bool,
) -> DetectionStatus {
    if !found(dialog_spec(line, prev, ignored)) && !skip_dialog_check {
        DetectionStatus::NotFound
    } else {
        combine_spec(line, prev, target, ignored).1
    }
}

/// Status of the end-of-message markers `[Info]`, `[Error]`, `[Warning]`, in that order.
pub open spec fn end_of_trade_spec(line: Seq<char>, prev: Seq<char>, ignored: Seq<DetectionStatus>) -> DetectionStatus {
    let a = combine_spec(line, prev, "[Info]"@, ignored).1;
    let b = combine_spec(line, prev, "[Error]"@, ignored).1;
    let c = combine_spec(line, prev, "[Warning]"@, ignored).1;
    if found(a) {
        a
    } else if found(b) {
        b
    } else {
        c
    }
}

/// The two endings of the item line that closes an offer.
pub open spec fn last_item_pats() -> (Seq<char>, Seq<char>) {
    (
        ", title= leftItem=/Menu/Confirm_Item_Ok, rightItem=/Menu/Confirm_Item_Cancel)"@,
        ", leftItem=/Menu/Confirm_Item_Ok, rightItem=/Menu/Confirm_Item_Cancel)"@,
    )
}

/// The last-item detection: the text before the first ending found, or the line.
pub open spec fn last_item_spec(line: Seq<char>, prev: Seq<char>, ignored: Seq<DetectionStatus>) -> (Seq<char>, DetectionStatus) {
    let (a, b) = last_item_pats();
    let ra = combine_spec(line, prev, a, ignored);
    let rb = combine_spec(line, prev, b, ignored);
    if found(ra.1) {
        (before_first(ra.0, a), ra.1)
    } else if found(rb.1) {
        (before_first(rb.0, b), rb.1)
    } else {
        (line, DetectionStatus::NotFound)
    }
}

/// How two partial detections of the offer line combine into one.
pub open spec fn offer_merge(
    line: Seq<char>,
    first_part: Seq<char>,
    first: DetectionStatus,
    second_part: Seq<char>,
    second: DetectionStatus,
) -> (Seq<char>, DetectionStatus) {
    if first == second {
        (first_part, first)
    } else if first == DetectionStatus::LineThenPreviousLine && second == DetectionStatus::Line {
        (first_part, DetectionStatus::Combined)
    } else if first == DetectionStatus::LineThenPreviousLine && second
        == DetectionStatus::PreviousLine {
        (first_part, DetectionStatus::Combined)
    } else if first == DetectionStatus::Line && second == DetectionStatus::PreviousLine {
        (first_part + second_part, DetectionStatus::Combined)
    } else if first == DetectionStatus::Line && second == DetectionStatus::LineThenPreviousLine {
        (second_part, DetectionStatus::Combined)
    } else {
        (line, DetectionStatus::Line)
    }
}

/// The player's name in an offer line: the text between the two receive-line
/// parts ("Unknown" when it does not have both), with the private-use marks
/// U+E000 and U+E001 removed and surrounding whitespace trimmed.
pub open spec fn player_name_spec(text: Seq<char>, first: Seq<char>, second: Seq<char>) -> Seq<char> {
    let inner = if starts_with_seq(text, first) && ends_with_seq(
        text.subrange(first.len() as int, text.len() as int),
        second,
    ) {
        text.subrange(first.len() as int, text.len() - second.len())
    } else {
        "Unknown"@
    };
    trim_seq(
        replace_seq(
            replace_seq(replace_seq(inner, seq!['\u{e000}'], Seq::empty()), seq!['\u{e001}'], Seq::empty()),
            seq!['\u{e001}'],
            Seq::empty(),
        ),
    )
}

impl TradeDetection {
    /// Builds the patterns of one language.
    pub fn new(
        start: &str,
        confirmation_line: &str,
        failed_line: &str,
        cancelled_line: &str,
        receive_line_first_part: &str,
        receive_line_second_part: &str,
        platinum_name: &str,
        credits_name: &str,
        imprint_name: &str,
    ) -> (res: Self)
        ensures
            res.start@ == start@,
            res.confirmation_line@ == confirmation_line@,
            res.failed_line@ == failed_line@,
            res.cancelled_line@ == cancelled_line@,
            res.receive_line_first_part@ == receive_line_first_part@,
            res.receive_line_second_part@ == receive_line_second_part@,
            res.platinum_name@ == platinum_name@,
            res.credits_name@ == credits_name@,
            res.imprint_name@ == imprint_name@,
    {
        TradeDetection {
            start: start.to_owned(),
            confirmation_line: confirmation_line.to_owned(),
            failed_line: failed_line.to_owned(),
            cancelled_line: cancelled_line.to_owned(),
            receive_line_first_part: receive_line_first_part.to_owned(),
            receive_line_second_part: receive_line_second_part.to_owned(),
            platinum_name: platinum_name.to_owned(),
            credits_name: credits_name.to_owned(),
            imprint_name: imprint_name.to_owned(),
        }
    }

    /// The line opens or continues a dialog box.
    pub fn is_dialog_line(&self, line: &str, prev_line: &str, ignored_combinations: &[DetectionStatus]) -> (res:
        DetectionStatus)
        ensures
            res == dialog_spec(line@, prev_line@, ignored_combinations@),
    {
        let (_, a) = combine_and_detect_match(
            line,
            prev_line,
            "[Info]: Dialog.lua: Dialog::CreateOkCancel(description=",
            ignored_combinations,
        );
        if a.is_found() {
            return a;
        }
        let (_, b) = combine_and_detect_match(
            line,
            prev_line,
            "[Info]: Dialog.lua: Dialog::CreateOk(description=",
            ignored_combinations,
        );
        if b.is_found() {
            return b;
        }
        DetectionStatus::NotFound
    }

    fn detect_trade_state(
        &self,
        line: &str,
        prev_line: &str,
        target: &str,
        ignored_combinations: &[DetectionStatus],
        skip_dialog_check: bool,
    ) -> (res: DetectionStatus)
        ensures
            res == detect_state_spec(line@, prev_line@, target@, ignored_combinations@, skip_dialog_check),
    {
        let is_dialog = self.is_dialog_line(line, prev_line, ignored_combinations);
        if !is_dialog.is_found() && !skip_dialog_check {
            return DetectionStatus::NotFound;
        }
        let (_, status) = combine_and_detect_match(line, prev_line, target, ignored_combinations);
        if status.is_found() {
            status
        } else {
            DetectionStatus::NotFound
        }
    }

    /// How the trade dialog ended: success, failure and cancellation lines count on
    /// dialog lines only, the accept-failure line anywhere; the first that is found
    /// decides, else `(NotFound, Unknown)`.
    pub fn get_trade_result(&self, line: &str, prev_line: &str, ignored_combinations: &[DetectionStatus]) -> (res:
        (DetectionStatus, TradeResult))
        ensures
            res == trade_result_spec(*self, line@, prev_line@, ignored_combinations@),
    {
        let s = self.detect_trade_state(
            line,
            prev_line,
            self.confirmation_line.as_str(),
            ignored_combinations,
            false,
        );
        if s.is_found() {
            return (s, TradeResult::Success);
        }
        let f = self.detect_trade_state(
            line,
            prev_line,
            self.failed_line.as_str(),
            ignored_combinations,
            false,
        );
        if f.is_found() {
            return (f, TradeResult::Failed);
        }
        let c = self.detect_trade_state(
            line,
            prev_line,
            self.cancelled_line.as_str(),
            ignored_combinations,
            false,
        );
        if c.is_found() {
            return (c, TradeResult::Cancelled);
        }
        let o = self.detect_trade_state(
            line,
            prev_line,
            "[Info]: OnTradeAccepted failed",
            ignored_combinations,
            true,
        );
        if o.is_found() {
            return (o, TradeResult::OnTradeAcceptedFailed);
        }
        (DetectionStatus::NotFound, TradeResult::Unknown)
    }

    /// Detection of the first receive-line part.
    pub fn is_first_part(&self, line: &str, prev_line: &str, ignored_combinations: &[DetectionStatus]) -> (res:
        (String, DetectionStatus))
        ensures
            (res.0@, res.1) == combine_spec(
                line@,
                prev_line@,
                self.receive_line_first_part@,
                ignored_combinations@,
            ),
    {
        combine_and_detect_match(
            line,
            prev_line,
            self.receive_line_first_part.as_str(),
            ignored_combinations,
        )
    }

    /// Detection of the second receive-line part.
    pub fn is_second_part(&self, line: &str, prev_line: &str, ignored_combinations: &[DetectionStatus]) -> (res:
        (String, DetectionStatus))
        ensures
            (res.0@, res.1) == combine_spec(
                line@,
                prev_line@,
                self.receive_line_second_part@,
                ignored_combinations@,
            ),
    {
        combine_and_detect_match(
            line,
            prev_line,
            self.receive_line_second_part.as_str(),
            ignored_combinations,
        )
    }

    /// Detection of a currency line: "<platinum name> x" first, then the credits
    /// name; `(line, NotFound, Unknown)` when neither is found.
    pub fn is_currency(&self, line: &str, prev_line: &str, ignored_combinations: &[DetectionStatus]) -> (res:
        (String, DetectionStatus, TradeItemType))
        ensures
            ({
                let p = combine_spec(line@, prev_line@, self.platinum_name@ + " x"@, ignored_combinations@);
                let c = combine_spec(line@, prev_line@, self.credits_name@, ignored_combinations@);
                if found(p.1) {
                    res.0@ == p.0 && res.1 == p.1 && res.2 == TradeItemType::Platinum
                } else if found(c.1) {
                    res.0@ == c.0 && res.1 == c.1 && res.2 == TradeItemType::Credits
                } else {
                    res.0@ == line@ && res.1 == DetectionStatus::NotFound && res.2 == TradeItemType::Unknown
                }
            }),
    {
        let l = chars_of(line);
        let p = chars_of(prev_line);
        let plat = concat(&chars_of_string(&self.platinum_name), &chars_of(" x"));
        let (pt, ps) = combine_chars(&l, &p, &plat, ignored_combinations);
        if ps.is_found() {
            return (string_of(&pt), ps, TradeItemType::Platinum);
        }
        let cred = chars_of_string(&self.credits_name);
        let (ct, cs) = combine_chars(&l, &p, &cred, ignored_combinations);
        if cs.is_found() {
            return (string_of(&ct), cs, TradeItemType::Credits);
        }
        (line.to_owned(), DetectionStatus::NotFound, TradeItemType::Unknown)
    }

    /// Detection of the line naming the trade partner: both receive-line parts must
    /// be found; the result is the partner's name and how the two detections combine.
    pub fn is_offer_line(&self, line: &str, prev_line: &str, ignored_combinations: &[DetectionStatus]) -> (res:
        (String, DetectionStatus))
        ensures
            res.0@ == offer_line_spec(*self, line@, prev_line@, ignored_combinations@).0,
            res.1 == offer_line_spec(*self, line@, prev_line@, ignored_combinations@).1,
    {
        let (first_part, first_status) = self.is_first_part(line, prev_line, ignored_combinations);
        if !first_status.is_found() {
            return (line.to_owned(), DetectionStatus::NotFound);
        }
        let (second_part, second_status) = self.is_second_part(
            line,
            prev_line,
            ignored_combinations,
        );
        if !second_status.is_found() {
            return (line.to_owned(), DetectionStatus::NotFound);
        }
        let fp = chars_of_string(&first_part);
        let sp = chars_of_string(&second_part);
        let (text, status) = if first_status == second_status {
            (fp, first_status)
        } else if first_status == DetectionStatus::LineThenPreviousLine && second_status
            == DetectionStatus::Line {
            (fp, DetectionStatus::Combined)
        } else if first_status == DetectionStatus::LineThenPreviousLine && second_status
            == DetectionStatus::PreviousLine {
            (fp, DetectionStatus::Combined)
        } else if first_status == DetectionStatus::Line && second_status
            == DetectionStatus::PreviousLine {
            (concat(&fp, &sp), DetectionStatus::Combined)
        } else if first_status == DetectionStatus::Line && second_status
            == DetectionStatus::LineThenPreviousLine {
            (sp, DetectionStatus::Combined)
        } else {
            (chars_of(line), DetectionStatus::Line)
        };
        let name = extract_player_name(
            &text,
            &chars_of_string(&self.receive_line_first_part),
            &chars_of_string(&self.receive_line_second_part),
        );
        (string_of(&name), status)
    }

    /// Detection of the end of a multi-line trade message.
    pub fn is_end_of_trade(&self, line: &str, prev_line: &str, ignored_combinations: &[DetectionStatus]) -> (res:
        DetectionStatus)
        ensures
            res == end_of_trade_spec(line@, prev_line@, ignored_combinations@),
    {
        let (_, a) = combine_and_detect_match(line, prev_line, "[Info]", ignored_combinations);
        if a.is_found() {
            return a;
        }
        let (_, b) = combine_and_detect_match(line, prev_line, "[Error]", ignored_combinations);
        if b.is_found() {
            return b;
        }
        let (_, c) = combine_and_detect_match(line, prev_line, "[Warning]", ignored_combinations);
        if c.is_found() {
            return c;
        }
        DetectionStatus::NotFound
    }

    /// Detection of the dialog that opens a trade: a dialog line containing the
    /// start text gives `Line`; with `Combined` ignored nothing else counts; else
    /// the start text found anywhere on a dialog line counts.
    pub fn is_beginning_of_trade(
        &self,
        line: &str,
        prev_line: &str,
        ignored_combinations: &[DetectionStatus],
    ) -> (res: DetectionStatus)
        ensures
            res == beginning_spec(*self, line@, prev_line@, ignored_combinations@),
    {
        let is_dialog = self.is_dialog_line(line, prev_line, ignored_combinations);
        if is_dialog.is_found() && str_contains(line, self.start.as_str()) {
            return DetectionStatus::Line;
        }
        if slice_contains(ignored_combinations, DetectionStatus::Combined) {
            return DetectionStatus::NotFound;
        }
        let (_, status) = combine_and_detect_match(
            line,
            prev_line,
            self.start.as_str(),
            ignored_combinations,
        );
        if is_dialog.is_found() && status.is_found() {
            return status;
        }
        DetectionStatus::NotFound
    }

    /// Detection of the last item of an offer; the text is the item's name (what
    /// precedes the closing part of the dialog).
    pub fn is_last_item(&self, line: &str, prev_line: &str, ignored_combinations: &[DetectionStatus]) -> (res:
        (String, DetectionStatus))
        ensures
            (res.0@, res.1) == last_item_spec(line@, prev_line@, ignored_combinations@),
    {
        let l = chars_of(line);
        let p = chars_of(prev_line);
        let a = chars_of(", title= leftItem=/Menu/Confirm_Item_Ok, rightItem=/Menu/Confirm_Item_Cancel)");
        let (at, ast) = combine_chars(&l, &p, &a, ignored_combinations);
        if ast.is_found() {
            return (string_of(&prefix_before(&at, &a)), ast);
        }
        let b = chars_of(", leftItem=/Menu/Confirm_Item_Ok, rightItem=/Menu/Confirm_Item_Cancel)");
        let (bt, bst) = combine_chars(&l, &p, &b, ignored_combinations);
        if bst.is_found() {
            return (string_of(&prefix_before(&bt, &b)), bst);
        }
        (line.to_owned(), DetectionStatus::NotFound)
    }
}

/// The trade-result detection (see `TradeDetection::get_trade_result`).
pub open spec fn trade_result_spec(
    d: TradeDetection,
    line: Seq<char>,
    prev: Seq<char>,
    ignored: Seq<DetectionStatus>,
) -> (DetectionStatus, TradeResult) {
    let s = detect_state_spec(line, prev, d.confirmation_line@, ignored, false);
    let f = detect_state_spec(line, prev, d.failed_line@, ignored, false);
    let c = detect_state_spec(line, prev, d.cancelled_line@, ignored, false);
    let o = detect_state_spec(line, prev, "[Info]: OnTradeAccepted failed"@, ignored, true);
    if found(s) {
        (s, TradeResult::Success)
    } else if found(f) {
        (f, TradeResult::Failed)
    } else if found(c) {
        (c, TradeResult::Cancelled)
    } else if found(o) {
        (o, TradeResult::OnTradeAcceptedFailed)
    } else {
        (DetectionStatus::NotFound, TradeResult::Unknown)
    }
}

/// The offer-line detection (see `TradeDetection::is_offer_line`).
pub open spec fn offer_line_spec(
    d: TradeDetection,
    line: Seq<char>,
    prev: Seq<char>,
    ignored: Seq<DetectionStatus>,
) -> (Seq<char>, DetectionStatus) {
    let f = combine_spec(line, prev, d.receive_line_first_part@, ignored);
    let s = combine_spec(line, prev, d.receive_line_second_part@, ignored);
    if !found(f.1) || !found(s.1) {
        (line, DetectionStatus::NotFound)
    } else {
        let m = offer_merge(line, f.0, f.1, s.0, s.1);
        (player_name_spec(m.0, d.receive_line_first_part@, d.receive_line_second_part@), m.1)
    }
}

/// The start-of-trade detection (see `TradeDetection::is_beginning_of_trade`).
pub open spec fn beginning_spec(
    d: TradeDetection,
    line: Seq<char>,
    prev: Seq<char>,
    ignored: Seq<DetectionStatus>,
) -> DetectionStatus {
    let dialog = dialog_spec(line, prev, ignored);
    if found(dialog) && contains_seq(line, d.start@) {
        DetectionStatus::Line
    } else if ignored.contains(DetectionStatus::Combined) {
        DetectionStatus::NotFound
    } else {
        let st = combine_spec(line, prev, d.start@, ignored).1;
        if found(dialog) && found(st) {
            st
        } else {
            DetectionStatus::NotFound
        }
    }
}

/// The part of `s` before the first occurrence of `pat`.
pub fn prefix_before(s: &Vec<char>, pat: &Vec<char>) -> (res: Vec<char>)
    ensures
        res@ == before_first(s@, pat@),
{
    match find(s, pat) {
        Some(i) => {
            proof {
                lemma_find_seq(s@, pat@);
            }
            slice(s, 0, i)
        },
        None => s.clone(),
    }
}

/// The partner's name in an offer line (see `player_name_spec`).
pub fn extract_player_name(text: &Vec<char>, first: &Vec<char>, second: &Vec<char>) -> (res: Vec<char>)
    ensures
        res@ == player_name_spec(text@, first@, second@),
{
    let inner = match strip_prefix(text, first) {
        Some(rest) => match strip_suffix(&rest, second) {
            Some(mid) => {
                assert(mid@ =~= text@.subrange(first@.len() as int, text@.len() - second@.len()));
                mid
            },
            None => chars_of("Unknown"),
        },
        None => chars_of("Unknown"),
    };
    let mut e000: Vec<char> = Vec::new();
    e000.push('\u{e000}');
    let mut e001: Vec<char> = Vec::new();
    e001.push('\u{e001}');
    let empty: Vec<char> = Vec::new();
    assert(e000@ =~= seq!['\u{e000}']);
    assert(e001@ =~= seq!['\u{e001}']);
    assert(empty@ =~= Seq::<char>::empty());
    let a = replace(&inner, &e000, &empty);
    let b = replace(&a, &e001, &empty);
    let c = replace(&b, &e001, &empty);
    trim(&c)
}

/// The detection patterns of the English and Russian game clients, keyed by
/// language code.
pub fn init_detections() -> (res: Vec<(String, TradeDetection)>)
    ensures
        res@.len() == 2,
        res@[0].0@ == "en"@,
        res@[1].0@ == "ru"@,
        detection_has(
            res@[0].1,
            "description=Are you sure you want to accept this trade? You are offering"@,
            "description=The trade was successful!"@,
            "description=The trade failed."@,
            "description=The trade was cancelled"@,
            "and will receive from "@,
            " the following:"@,
            "Platinum"@,
            "Credits"@,
            "imprint of"@,
        ),
        detection_has(
            res@[1].1,
            "description=Вы хотите принять условия сделки? Вы предлагаете"@,
            "description=Обмен успешно завершён!"@,
            "description=Обмен не удался."@,
            "description=Обмен был отменён"@,
            "и получите от "@,
            " следующее:"@,
            "Платина"@,
            "Кредиты"@,
            "оттиск от"@,
        ),
{
    let mut detections: Vec<(String, TradeDetection)> = Vec::new();
    detections.push(
        (
            "en".to_owned(),
            TradeDetection::new(
                "description=Are you sure you want to accept this trade? You are offering",
                "description=The trade was successful!",
                "description=The trade failed.",
                "description=The trade was cancelled",
                "and will receive from ",
                " the following:",
                "Platinum",
                "Credits",
                "imprint of",
            ),
        ),
    );
    detections.push(
        (
            "ru".to_owned(),
            TradeDetection::new(
                "description=Вы хотите принять условия сделки? Вы предлагаете",
                "description=Обмен успешно завершён!",
                "description=Обмен не удался.",
                "description=Обмен был отменён",
                "и получите от ",
                " следующее:",
                "Платина",
                "Кредиты",
                "оттиск от",
            ),
        ),
    );
    detections
}

/// `d` holds exactly the given patterns.
pub open spec fn detection_has(
    d: TradeDetection,
    start: Seq<char>,
    confirmation_line: Seq<char>,
    failed_line: Seq<char>,
    cancelled_line: Seq<char>,
    receive_line_first_part: Seq<char>,
    receive_line_second_part: Seq<char>,
    platinum_name: Seq<char>,
    credits_name: Seq<char>,
    imprint_name: Seq<char>,
) -> bool {
    &&& d.start@ == start
    &&& d.confirmation_line@ == confirmation_line
    &&& d.failed_line@ == failed_line
    &&& d.cancelled_line@ == cancelled_line
    &&& d.receive_line_first_part@ == receive_line_first_part
    &&& d.receive_line_second_part@ == receive_line_second_part
    &&& d.platinum_name@ == platinum_name
    &&& d.credits_name@ == credits_name
    &&& d.imprint_name@ == imprint_name
}


/// The partner's name never holds the private-use marks U+E000 or U+E001 and
/// has no surrounding whitespace, whatever the text it is taken from.
pub proof fn lemma_player_name_clean(text: Seq<char>, first: Seq<char>, second: Seq<char>)
    ensures
        !player_name_spec(text, first, second).contains('\u{e000}'),
        !player_name_spec(text, first, second).contains('\u{e001}'),
        trim_seq(player_name_spec(text, first, second)) == player_name_spec(text, first, second),
{
    let inner = if starts_with_seq(text, first) && ends_with_seq(
        text.subrange(first.len() as int, text.len() as int),
        second,
    ) {
        text.subrange(first.len() as int, text.len() - second.len())
    } else {
        "Unknown"@
    };
    let a = replace_seq(inner, seq!['\u{e000}'], Seq::empty());
    let b = replace_seq(a, seq!['\u{e001}'], Seq::empty());
    let c = replace_seq(b, seq!['\u{e001}'], Seq::empty());
    lemma_remove_char(inner, '\u{e000}');
    lemma_remove_char(a, '\u{e001}');
    lemma_remove_char(b, '\u{e001}');
    lemma_trim(c);
    let r = trim_seq(c);
    assert(r == player_name_spec(text, first, second));
    assert forall|i: int| 0 <= i < r.len() implies r[i] != '\u{e000}' && r[i] != '\u{e001}' by {
        let x = r[i];
        assert(c.contains(x));
        let j = choose|j: int| 0 <= j < c.len() && c[j] == x;
        assert(c[j] != '\u{e001}' && b.contains(c[j]));
        let j2 = choose|j2: int| 0 <= j2 < b.len() && b[j2] == x;
        assert(b[j2] != '\u{e001}' && a.contains(b[j2]));
        let j3 = choose|j3: int| 0 <= j3 < a.len() && a[j3] == x;
        assert(a[j3] != '\u{e000}');
    }
}

/// An offer line without both receive-line parts gives the line back, not
/// found; one with both is found and gives a partner name free of the marks
/// U+E000 and U+E001 and of surrounding whitespace.
pub proof fn lemma_offer_line_name(d: TradeDetection, line: Seq<char>, prev: Seq<char>, ignored: Seq<DetectionStatus>)
    ensures
        ({
            let f = combine_spec(line, prev, d.receive_line_first_part@, ignored).1;
            let s = combine_spec(line, prev, d.receive_line_second_part@, ignored).1;
            let r = offer_line_spec(d, line, prev, ignored);
            &&& !(found(f) && found(s)) ==> r == (line, DetectionStatus::NotFound)
            &&& found(f) && found(s) ==> {
                &&& found(r.1)
                &&& !r.0.contains('\u{e000}')
                &&& !r.0.contains('\u{e001}')
                &&& trim_seq(r.0) == r.0
            }
        }),
{
    let f = combine_spec(line, prev, d.receive_line_first_part@, ignored);
    let s = combine_spec(line, prev, d.receive_line_second_part@, ignored);
    if found(f.1) && found(s.1) {
        let m = offer_merge(line, f.0, f.1, s.0, s.1);
        lemma_player_name_clean(m.0, d.receive_line_first_part@, d.receive_line_second_part@);
    }
}

/// What a trade-result line means. A success is reported only when the game's
/// dialog is found and the confirmation text is found; a failure only when the
/// dialog and the failed text are found and the confirmation text is not. In
/// particular a dialog line that holds the failed text, when the confirmation
/// text occurs neither in it nor across the break with the previous line, is a
/// failure found in the line itself.
pub proof fn lemma_trade_result_meaning(d: TradeDetection, line: Seq<char>, prev: Seq<char>, ignored: Seq<DetectionStatus>)
    ensures
        ({
            let r = trade_result_spec(d, line, prev, ignored);
            let dialog = found(dialog_spec(line, prev, ignored));
            let confirmed = found(combine_spec(line, prev, d.confirmation_line@, ignored).1);
            let failed = found(combine_spec(line, prev, d.failed_line@, ignored).1);
            &&& (r.1 == TradeResult::Success <==> dialog && confirmed)
            &&& (r.1 == TradeResult::Failed <==> dialog && !confirmed && failed)
            &&& (r.1 == TradeResult::Success || r.1 == TradeResult::Failed) ==> found(r.0)
        }),
        contains_seq(line, "[Info]: Dialog.lua: Dialog::CreateOk(description="@) && contains_seq(
            line,
            d.failed_line@,
        ) && !contains_seq(line, d.confirmation_line@) && !contains_seq(line + prev, d.confirmation_line@)
            && !contains_seq(prev + line, d.confirmation_line@) ==> trade_result_spec(d, line, prev, ignored) == (
            DetectionStatus::Line,
            TradeResult::Failed,
        ),
{
    let a = combine_spec(line, prev, "[Info]: Dialog.lua: Dialog::CreateOkCancel(description="@, ignored);
    let b = combine_spec(line, prev, "[Info]: Dialog.lua: Dialog::CreateOk(description="@, ignored);
    if contains_seq(line, "[Info]: Dialog.lua: Dialog::CreateOk(description="@) {
        assert(found(b.1));
    }
}
} // verus!
