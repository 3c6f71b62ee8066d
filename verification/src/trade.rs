//! Items and trades as the log parser records them, and the calculations that
//! finalise a trade.
use vstd::prelude::*;
use crate::enums::{TradeClassification, TradeItemType, classify_spec};
use crate::detection::{DetectionStatus, TradeDetection, found, combined, combine_chars, last_item_spec, combine_spec};
use crate::text::{chars_of, chars_of_string, string_of, concat};

verus! {

/// Copies of strings, with their contents.
pub fn copy_strings(v: &Vec<String>) -> (res: Vec<String>)
    ensures
        strings_view(res@) == strings_view(v@),
{
    let mut out: Vec<String> = Vec::new();
    let mut i: usize = 0;
    while i < v.len()
        invariant
            i <= v.len(),
            out@.len() == i,
            forall|k: int| 0 <= k < i ==> #[trigger] out@[k]@ == v@[k]@,
        decreases v.len() - i,
    {
        let ghost before = out@;
        let c = v[i].clone();
        out.push(c);
        proof {
            assert(out@ == before.push(c));
            assert(c@ == v@[i as int]@);
        }
        i += 1;
    }
    assert(strings_view(out@) =~= strings_view(v@));
    out
}

/// The contents of a sequence of strings.
pub open spec fn strings_view(v: Seq<String>) -> Seq<Seq<char>> {
    v.map_values(|s: String| s@)
}

/// The contents of an optional string.
pub open spec fn opt_str_view(o: Option<String>) -> Option<Seq<char>> {
    match o {
        Some(s) => Some(s@),
        None => None,
    }
}

/// A copy of an optional string.
pub fn copy_opt_string(o: &Option<String>) -> (res: Option<String>)
    ensures
        opt_str_view(res) == opt_str_view(*o),
{
    match o {
        Some(s) => Some(s.clone()),
        None => None,
    }
}

/// The variant of a tradable item: mod rank, named variant, ayatan stars.
#[derive(Debug)]
pub struct SubType {
    pub rank: Option<i64>,
    pub variant: Option<String>,
    pub amber_stars: Option<i64>,
    pub cyan_stars: Option<i64>,
}

/// The contents of a sub type.
pub struct SubTypeView {
    pub rank: Option<i64>,
    pub variant: Option<Seq<char>>,
    pub amber_stars: Option<i64>,
    pub cyan_stars: Option<i64>,
}

impl View for SubType {
    type V = SubTypeView;

    open spec fn view(&self) -> SubTypeView {
        SubTypeView {
            rank: self.rank,
            variant: opt_str_view(self.variant),
            amber_stars: self.amber_stars,
            cyan_stars: self.cyan_stars,
        }
    }
}

/// The contents of an optional sub type.
pub open spec fn opt_sub_view(o: Option<SubType>) -> Option<SubTypeView> {
    match o {
        Some(s) => Some(s@),
        None => None,
    }
}

impl SubType {
    /// A sub type holding only a mod rank.
    pub fn rank(rank: i64) -> (res: SubType)
        ensures
            res@ == (SubTypeView { rank: Some(rank), variant: None, amber_stars: None, cyan_stars: None }),
    {
        SubType { rank: Some(rank), variant: None, amber_stars: None, cyan_stars: None }
    }

    /// A sub type holding only a named variant.
    pub fn variant(variant: &str) -> (res: SubType)
        ensures
            res@ == (SubTypeView { rank: None, variant: Some(variant@), amber_stars: None, cyan_stars: None }),
    {
        SubType { rank: None, variant: Some(variant.to_owned()), amber_stars: None, cyan_stars: None }
    }

    /// A sub type holding only ayatan stars.
    pub fn ayatan(amber_stars: i64, cyan_stars: i64) -> (res: SubType)
        ensures
            res@ == (SubTypeView {
                rank: None,
                variant: None,
                amber_stars: Some(amber_stars),
                cyan_stars: Some(cyan_stars),
            }),
    {
        SubType { rank: None, variant: None, amber_stars: Some(amber_stars), cyan_stars: Some(cyan_stars) }
    }

    /// A copy with the same contents.
    pub fn duplicate(&self) -> (res: SubType)
        ensures
            res@ == self@,
    {
        SubType {
            rank: self.rank,
            variant: copy_opt_string(&self.variant),
            amber_stars: self.amber_stars,
            cyan_stars: self.cyan_stars,
        }
    }
}

/// A copy of an optional sub type.
pub fn copy_opt_sub(o: &Option<SubType>) -> (res: Option<SubType>)
    ensures
        opt_sub_view(res) == opt_sub_view(*o),
{
    match o {
        Some(s) => Some(s.duplicate()),
        None => None,
    }
}

/// Whether two optional sub types have the same contents.
pub fn same_sub_type(a: &Option<SubType>, b: &Option<SubType>) -> (res: bool)
    ensures
        res == (opt_sub_view(*a) == opt_sub_view(*b)),
{
    match (a, b) {
        (None, None) => true,
        (Some(x), Some(y)) => {
            x.rank == y.rank && x.amber_stars == y.amber_stars && x.cyan_stars == y.cyan_stars
                && same_opt_string(&x.variant, &y.variant)
        },
        _ => false,
    }
}

/// Whether two optional strings have the same contents.
pub fn same_opt_string(a: &Option<String>, b: &Option<String>) -> (res: bool)
    ensures
        res == (opt_str_view(*a) == opt_str_view(*b)),
{
    match (a, b) {
        (None, None) => true,
        (Some(x), Some(y)) => same_string(x, y),
        _ => false,
    }
}

/// Whether two strings have the same contents.
pub fn same_string(a: &String, b: &String) -> (res: bool)
    ensures
        res == (a@ == b@),
{
    *a == *b
}

/// The extra facts recorded on an item (a display name, the catalogue name and
/// market URL, tags, and whether the item needs a sub type to be chosen).
#[derive(Debug)]
pub struct ItemProperties {
    pub item_name: Option<String>,
    pub name: Option<String>,
    pub wfm_url: Option<String>,
    pub tags: Vec<String>,
    pub require_sub_type: bool,
}

/// The contents of item properties.
pub struct ItemPropertiesView {
    pub item_name: Option<Seq<char>>,
    pub name: Option<Seq<char>>,
    pub wfm_url: Option<Seq<char>>,
    pub tags: Seq<Seq<char>>,
    pub require_sub_type: bool,
}

impl View for ItemProperties {
    type V = ItemPropertiesView;

    open spec fn view(&self) -> ItemPropertiesView {
        ItemPropertiesView {
            item_name: opt_str_view(self.item_name),
            name: opt_str_view(self.name),
            wfm_url: opt_str_view(self.wfm_url),
            tags: strings_view(self.tags@),
            require_sub_type: self.require_sub_type,
        }
    }
}

impl ItemProperties {
    /// No facts recorded.
    pub fn empty() -> (res: ItemProperties)
        ensures
            res@ == empty_properties(),
    {
        let r = ItemProperties {
            item_name: None,
            name: None,
            wfm_url: None,
            tags: Vec::new(),
            require_sub_type: false,
        };
        assert(strings_view(r.tags@) =~= Seq::<Seq<char>>::empty());
        r
    }

    /// A copy with the same contents.
    pub fn duplicate(&self) -> (res: ItemProperties)
        ensures
            res@ == self@,
    {
        ItemProperties {
            item_name: copy_opt_string(&self.item_name),
            name: copy_opt_string(&self.name),
            wfm_url: copy_opt_string(&self.wfm_url),
            tags: copy_strings(&self.tags),
            require_sub_type: self.require_sub_type,
        }
    }
}

/// No facts recorded.
pub open spec fn empty_properties() -> ItemPropertiesView {
    ItemPropertiesView {
        item_name: None,
        name: None,
        wfm_url: None,
        tags: Seq::empty(),
        require_sub_type: false,
    }
}

/// One entry of a trade.
#[derive(Debug)]
pub struct TradeItem {
    pub raw: String,
    pub quantity: i64,
    pub unique_name: String,
    pub sub_type: Option<SubType>,
    pub item_type: TradeItemType,
    pub error: Option<String>,
    pub properties: ItemProperties,
}

/// The contents of a trade entry.
pub struct TradeItemView {
    pub raw: Seq<char>,
    pub quantity: i64,
    pub unique_name: Seq<char>,
    pub sub_type: Option<SubTypeView>,
    pub item_type: TradeItemType,
    pub error: Option<Seq<char>>,
    pub properties: ItemPropertiesView,
}

impl View for TradeItem {
    type V = TradeItemView;

    open spec fn view(&self) -> TradeItemView {
        TradeItemView {
            raw: self.raw@,
            quantity: self.quantity,
            unique_name: self.unique_name@,
            sub_type: opt_sub_view(self.sub_type),
            item_type: self.item_type,
            error: opt_str_view(self.error),
            properties: self.properties@,
        }
    }
}

/// The contents of a sequence of trade entries.
pub open spec fn items_view(v: Seq<TradeItem>) -> Seq<TradeItemView> {
    v.map_values(|t: TradeItem| t@)
}

/// A fresh entry: raw text and unique name both `unique_name`, no error, no facts.
pub open spec fn new_item_spec(
    unique_name: Seq<char>,
    quantity: i64,
    item_type: TradeItemType,
    sub_type: Option<SubTypeView>,
) -> TradeItemView {
    TradeItemView {
        raw: unique_name,
        quantity,
        unique_name,
        sub_type,
        item_type,
        error: None,
        properties: empty_properties(),
    }
}

/// An entry counts: its type is known and it carries no error.
pub open spec fn item_valid(t: TradeItemView) -> bool {
    t.item_type != TradeItemType::Unknown && t.error is None
}

impl TradeItem {
    /// A fresh entry (see `new_item_spec`).
    pub fn new(unique_name: &str, quantity: i64, item_type: TradeItemType, sub_type: Option<SubType>) -> (res:
        TradeItem)
        ensures
            res@ == new_item_spec(unique_name@, quantity, item_type, opt_sub_view(sub_type)),
    {
        TradeItem {
            raw: unique_name.to_owned(),
            quantity,
            unique_name: unique_name.to_owned(),
            item_type,
            sub_type,
            error: None,
            properties: ItemProperties::empty(),
        }
    }

    /// The placeholder entry: raw "N/A", quantity 1, no unique name, unknown type.
    pub fn default_item() -> (res: TradeItem)
        ensures
            res@ == (TradeItemView {
                raw: "N/A"@,
                quantity: 1,
                unique_name: ""@,
                sub_type: None,
                item_type: TradeItemType::Unknown,
                error: None,
                properties: empty_properties(),
            }),
    {
        TradeItem {
            raw: "N/A".to_owned(),
            quantity: 1,
            unique_name: "".to_owned(),
            item_type: TradeItemType::Unknown,
            sub_type: None,
            error: None,
            properties: ItemProperties::empty(),
        }
    }

    /// A copy with the same contents.
    pub fn duplicate(&self) -> (res: TradeItem)
        ensures
            res@ == self@,
    {
        TradeItem {
            raw: self.raw.clone(),
            quantity: self.quantity,
            unique_name: self.unique_name.clone(),
            sub_type: copy_opt_sub(&self.sub_type),
            item_type: self.item_type,
            error: copy_opt_string(&self.error),
            properties: self.properties.duplicate(),
        }
    }

    /// The entry counts: known type and no error.
    pub fn is_valid(&self) -> (res: bool)
        ensures
            res == item_valid(self@),
    {
        self.item_type != TradeItemType::Unknown && self.error.is_none()
    }

    /// Currency detection: on a platinum or credits line the entry becomes that
    /// currency (unique name "WFSpecial/Currency/Platinum" or ".../Credits") and
    /// its quantity is the number after " x " in the matched text (1 when that
    /// does not parse); otherwise the entry is unchanged.
    pub fn is_platinum_or_credits(
        &mut self,
        line: &str,
        prev_line: &str,
        detection: &TradeDetection,
        ignored_combinations: &[DetectionStatus],
    ) -> (res: DetectionStatus)
        ensures
            currency_step(old(self)@, *detection, line@, prev_line@, ignored_combinations@) == (
            final(self)@,
            res,
        ),
    {
        let (combine, status, item_type) = detection.is_currency(
            line,
            prev_line,
            ignored_combinations,
        );
        if !status.is_found() {
            return DetectionStatus::NotFound;
        }
        match item_type {
            TradeItemType::Platinum => {
                self.unique_name = "WFSpecial/Currency/Platinum".to_owned();
            },
            TradeItemType::Credits => {
                self.unique_name = "WFSpecial/Currency/Credits".to_owned();
            },
            _ => {},
        }
        let c = chars_of_string(&combine);
        let sep = chars_of(" x ");
        proof {
            reveal_strlit(" x ");
        }
        match crate::text::find(&c, &sep) {
            Some(i) => {
                proof {
                    crate::text::lemma_find_seq(c@, sep@);
                    assert(sep@.len() == 3);
                    assert(crate::text::matches_at(c@, sep@, i as int));
                    assert(i + sep@.len() <= c@.len());
                    assert(i + 3 <= c.len());
                }
                let rest = crate::text::slice(&c, i + 3, c.len());
                let q = crate::text::trim(&rest);
                self.quantity = match crate::number::parse_i64(&q) {
                    Some(v) => v,
                    None => 1,
                };
            },
            None => {},
        }
        self.item_type = item_type;
        status
    }

    /// The two lines with the closing part of the last item removed, and how that
    /// part was detected: a match in the line replaces the line, a match in the
    /// previous line or across both replaces the previous line.
    pub fn split_last_item(
        line: &str,
        prev_line: &str,
        detection: &TradeDetection,
        ignored_combinations: &[DetectionStatus],
    ) -> (res: (String, String, DetectionStatus))
        ensures
            (res.0@, res.1@, res.2) == split_last_spec(line@, prev_line@, ignored_combinations@),
    {
        let (parse_text, st) = detection.is_last_item(line, prev_line, ignored_combinations);
        if st == DetectionStatus::Line {
            (parse_text, prev_line.to_owned(), st)
        } else if st == DetectionStatus::PreviousLine || st.is_combined() {
            (line.to_owned(), parse_text, st)
        } else {
            (line.to_owned(), prev_line.to_owned(), st)
        }
    }

    /// Builds the entry for one offer line. The lines are first trimmed of the
    /// last-item ending (`split_last_item`); the entry starts as the line's text
    /// with quantity 1; currency detection runs first, and when it finds nothing
    /// `catalog_match` (the entry and status that the item catalogue resolves the
    /// split lines to, `None` when it resolves nothing) decides. An entry that is
    /// not found carries "Item not found"; a mod without rank carries
    /// "Mod Rank not found", loses its unique name and becomes unknown. The status
    /// is the shared one when both detections agree, `Combined` when either spans
    /// both lines, else the item's.
    pub fn from_string(
        line: &str,
        prev_line: &str,
        detection: &TradeDetection,
        ignored_combinations: &[DetectionStatus],
        catalog_match: Option<(TradeItem, DetectionStatus)>,
    ) -> (res: (DetectionStatus, TradeItem))
        ensures
            (res.0, res.1@) == from_string_spec(
                line@,
                prev_line@,
                *detection,
                ignored_combinations@,
                match catalog_match {
                    Some(m) => Some((m.0@, m.1)),
                    None => None,
                },
            ),
    {
        let (line2, prev2, last_item_status) = Self::split_last_item(
            line,
            prev_line,
            detection,
            ignored_combinations,
        );
        let mut item = TradeItem::new(line2.as_str(), 1, TradeItemType::Unknown, None);
        let currency = item.is_platinum_or_credits(
            line2.as_str(),
            prev2.as_str(),
            detection,
            ignored_combinations,
        );
        let item_status = if currency.is_found() {
            currency
        } else {
            match catalog_match {
                Some((m, st)) => {
                    if st.is_found() {
                        item = m;
                        st
                    } else {
                        DetectionStatus::NotFound
                    }
                },
                None => DetectionStatus::NotFound,
            }
        };
        if !item_status.is_found() {
            item.error = Some("Item not found".to_owned());
        } else if item.item_type == TradeItemType::Mod && item.sub_type.is_none() {
            item.error = Some("Mod Rank not found".to_owned());
            item.unique_name = String::new();
            item.item_type = TradeItemType::Unknown;
        }
        let status = if last_item_status == item_status {
            item_status
        } else if last_item_status.is_combined() || item_status.is_combined() {
            DetectionStatus::Combined
        } else {
            item_status
        };
        (status, item)
    }
}

/// The currency step of `is_platinum_or_credits`: the entry afterwards and the status.
pub open spec fn currency_step(
    t: TradeItemView,
    d: TradeDetection,
    line: Seq<char>,
    prev: Seq<char>,
    ignored: Seq<DetectionStatus>,
) -> (TradeItemView, DetectionStatus) {
    let p = combine_spec(line, prev, d.platinum_name@ + " x"@, ignored);
    let c = combine_spec(line, prev, d.credits_name@, ignored);
    let (text, st, ty) = if found(p.1) {
        (p.0, p.1, TradeItemType::Platinum)
    } else if found(c.1) {
        (c.0, c.1, TradeItemType::Credits)
    } else {
        (line, DetectionStatus::NotFound, TradeItemType::Unknown)
    };
    if !found(st) {
        (t, DetectionStatus::NotFound)
    } else {
        let name = if ty == TradeItemType::Platinum {
            "WFSpecial/Currency/Platinum"@
        } else {
            "WFSpecial/Currency/Credits"@
        };
        let qty = match crate::text::find_seq(text, " x "@) {
            Some(i) => match crate::number::parse_i64_spec(
                crate::text::trim_seq(text.subrange(i + 3, text.len() as int)),
            ) {
                Some(v) => v,
                None => 1,
            },
            None => t.quantity,
        };
        (TradeItemView { unique_name: name, quantity: qty, item_type: ty, ..t }, st)
    }
}

/// The lines after removing the last-item ending (see `split_last_item`).
pub open spec fn split_last_spec(line: Seq<char>, prev: Seq<char>, ignored: Seq<DetectionStatus>) -> (Seq<char>, Seq<char>, DetectionStatus) {
    let (text, st) = last_item_spec(line, prev, ignored);
    if st == DetectionStatus::Line {
        (text, prev, st)
    } else if st == DetectionStatus::PreviousLine || combined(st) {
        (line, text, st)
    } else {
        (line, prev, st)
    }
}

/// The entry built from one offer line (see `TradeItem::from_string`).
pub open spec fn from_string_spec(
    line: Seq<char>,
    prev: Seq<char>,
    d: TradeDetection,
    ignored: Seq<DetectionStatus>,
    catalog_match: Option<(TradeItemView, DetectionStatus)>,
) -> (DetectionStatus, TradeItemView) {
    let (line2, prev2, last_status) = split_last_spec(line, prev, ignored);
    let start = new_item_spec(line2, 1, TradeItemType::Unknown, None);
    let (cur, cur_status) = currency_step(start, d, line2, prev2, ignored);
    let (item, item_status) = if found(cur_status) {
        (cur, cur_status)
    } else {
        match catalog_match {
            Some(m) => if found(m.1) {
                m
            } else {
                (cur, DetectionStatus::NotFound)
            },
            None => (cur, DetectionStatus::NotFound),
        }
    };
    let item = if !found(item_status) {
        TradeItemView { error: Some("Item not found"@), ..item }
    } else if item.item_type == TradeItemType::Mod && item.sub_type is None {
        TradeItemView {
            error: Some("Mod Rank not found"@),
            unique_name: Seq::empty(),
            item_type: TradeItemType::Unknown,
            ..item
        }
    } else {
        item
    };
    let status = if last_status == item_status {
        item_status
    } else if combined(last_status) || combined(item_status) {
        DetectionStatus::Combined
    } else {
        item_status
    };
    (status, item)
}


/// The total quantity of the entries of type `ty`.
pub open spec fn typed_total(items: Seq<TradeItemView>, ty: TradeItemType) -> int
    decreases items.len(),
{
    if items.len() == 0 {
        0
    } else {
        typed_total(items.drop_last(), ty) + if items.last().item_type == ty {
            items.last().quantity as int
        } else {
            0
        }
    }
}

/// Summing the quantities of type `ty` in order never leaves the `i64` range.
pub open spec fn sums_fit(items: Seq<TradeItemView>, ty: TradeItemType) -> bool {
    forall|k: int|
        0 <= k <= items.len() ==> i64::MIN <= #[trigger] typed_total(items.take(k), ty) <= i64::MAX
}

/// The entries whose type is not one of `excluded`, in order.
pub open spec fn keep_types(items: Seq<TradeItemView>, excluded: Seq<TradeItemType>) -> Seq<TradeItemView>
    decreases items.len(),
{
    if items.len() == 0 {
        Seq::empty()
    } else if excluded.contains(items.last().item_type) {
        keep_types(items.drop_last(), excluded)
    } else {
        keep_types(items.drop_last(), excluded).push(items.last())
    }
}

/// The total quantity of the entries of type `ty`; the sum must stay in range.
pub fn total_of_type(items: &Vec<TradeItem>, ty: TradeItemType) -> (res: i64)
    requires
        sums_fit(items_view(items@), ty),
    ensures
        res as int == typed_total(items_view(items@), ty),
{
    let ghost iv = items_view(items@);
    let mut total: i64 = 0;
    let mut i: usize = 0;
    while i < items.len()
        invariant
            i <= items.len(),
            iv == items_view(items@),
            sums_fit(iv, ty),
            total as int == typed_total(iv.take(i as int), ty),
        decreases items.len() - i,
    {
        proof {
            let t = iv.take(i + 1);
            assert(t.drop_last() =~= iv.take(i as int));
            assert(t.last() == items@[i as int]@);
            assert(i64::MIN <= typed_total(iv.take(i + 1), ty) <= i64::MAX);
        }
        if items[i].item_type == ty {
            total = total + items[i].quantity;
        }
        i += 1;
    }
    assert(iv.take(i as int) =~= iv);
    total
}

/// Copies of the entries whose type is not one of `excluded`, in order.
pub fn keep_items(items: &Vec<TradeItem>, excluded: &Vec<TradeItemType>) -> (res: Vec<TradeItem>)
    ensures
        items_view(res@) == keep_types(items_view(items@), excluded@),
{
    let ghost iv = items_view(items@);
    let mut out: Vec<TradeItem> = Vec::new();
    let mut i: usize = 0;
    while i < items.len()
        invariant
            i <= items.len(),
            iv == items_view(items@),
            items_view(out@) == keep_types(iv.take(i as int), excluded@),
        decreases items.len() - i,
    {
        proof {
            let t = iv.take(i + 1);
            assert(t.drop_last() =~= iv.take(i as int));
            assert(t.last() == items@[i as int]@);
        }
        if !type_listed(excluded, items[i].item_type) {
            let c = items[i].duplicate();
            let ghost before = out@;
            out.push(c);
            assert(items_view(out@) =~= items_view(before).push(c@));
        }
        i += 1;
    }
    assert(iv.take(i as int) =~= iv);
    out
}

/// Whether `t` is one of `v`.
pub fn type_listed(v: &Vec<TradeItemType>, t: TradeItemType) -> (res: bool)
    ensures
        res == v@.contains(t),
{
    let mut i: usize = 0;
    while i < v.len()
        invariant
            i <= v.len(),
            forall|k: int| 0 <= k < i ==> v@[k] != t,
        decreases v.len() - i,
    {
        if v[i] == t {
            return true;
        }
        i += 1;
    }
    false
}

/// Copies of all entries of `a` followed by all of `b`.
pub fn chain_items(a: &Vec<TradeItem>, b: &Vec<TradeItem>) -> (res: Vec<TradeItem>)
    ensures
        items_view(res@) == items_view(a@) + items_view(b@),
{
    let none: Vec<TradeItemType> = Vec::new();
    let x = keep_items(a, &none);
    let y = keep_items(b, &none);
    proof {
        lemma_keep_nothing(items_view(a@));
        lemma_keep_nothing(items_view(b@));
    }
    let mut out = x;
    let mut j: usize = 0;
    let ghost base = items_view(out@);
    while j < y.len()
        invariant
            j <= y.len(),
            items_view(out@) == base + items_view(y@).take(j as int),
        decreases y.len() - j,
    {
        let c = y[j].duplicate();
        let ghost before = out@;
        out.push(c);
        assert(items_view(out@) =~= items_view(before).push(c@));
        j += 1;
        assert(items_view(out@) =~= base + items_view(y@).take(j as int));
    }
    assert(items_view(y@).take(y.len() as int) =~= items_view(y@));
    out
}

/// Excluding nothing keeps every entry.
pub proof fn lemma_keep_nothing(items: Seq<TradeItemView>)
    ensures
        keep_types(items, Seq::empty()) == items,
    decreases items.len(),
{
    if items.len() > 0 {
        lemma_keep_nothing(items.drop_last());
        assert(items.drop_last().push(items.last()) =~= items);
    }
}

/// A recipe the item catalogue finds buildable from a trade's entries: the set it
/// builds, and the blueprint and ingredients it consumes.
#[derive(Debug)]
pub struct CraftedSet {
    pub set_unique_name: String,
    pub set_name: String,
    pub set_sub_type: Option<SubType>,
    pub blueprint_name: String,
    pub ingredient_names: Vec<String>,
}

/// The contents of a crafted set.
pub struct CraftedSetView {
    pub set_unique_name: Seq<char>,
    pub set_name: Seq<char>,
    pub set_sub_type: Option<SubTypeView>,
    pub blueprint_name: Seq<char>,
    pub ingredient_names: Seq<Seq<char>>,
}

impl View for CraftedSet {
    type V = CraftedSetView;

    open spec fn view(&self) -> CraftedSetView {
        CraftedSetView {
            set_unique_name: self.set_unique_name@,
            set_name: self.set_name@,
            set_sub_type: opt_sub_view(self.set_sub_type),
            blueprint_name: self.blueprint_name@,
            ingredient_names: strings_view(self.ingredient_names@),
        }
    }
}

/// The contents of a sequence of crafted sets.
pub open spec fn sets_view(v: Seq<CraftedSet>) -> Seq<CraftedSetView> {
    v.map_values(|c: CraftedSet| c@)
}

/// An entry is a part of the recipe: its blueprint or one of its ingredients.
pub open spec fn is_part(t: TradeItemView, r: CraftedSetView) -> bool {
    t.unique_name == r.blueprint_name || r.ingredient_names.contains(t.unique_name)
}

/// The entries that are not parts of the recipe, in order.
pub open spec fn without_parts(items: Seq<TradeItemView>, r: CraftedSetView) -> Seq<TradeItemView>
    decreases items.len(),
{
    if items.len() == 0 {
        Seq::empty()
    } else if is_part(items.last(), r) {
        without_parts(items.drop_last(), r)
    } else {
        without_parts(items.drop_last(), r).push(items.last())
    }
}

/// The entry standing for a built set: quantity 1, tagged "set", named after the set.
pub open spec fn set_entry(r: CraftedSetView) -> TradeItemView {
    TradeItemView {
        properties: ItemPropertiesView {
            tags: seq!["set"@],
            item_name: Some(r.set_name),
            ..empty_properties()
        },
        ..new_item_spec(r.set_unique_name, 1, TradeItemType::ItemSet, r.set_sub_type)
    }
}

/// Each recipe in turn replaces its parts by the set entry.
pub open spec fn apply_sets(items: Seq<TradeItemView>, recipes: Seq<CraftedSetView>) -> Seq<TradeItemView>
    decreases recipes.len(),
{
    if recipes.len() == 0 {
        items
    } else {
        apply_sets(without_parts(items, recipes[0]).push(set_entry(recipes[0])), recipes.drop_first())
    }
}

/// Whether `s` is one of `v`.
pub fn string_listed(v: &Vec<String>, s: &String) -> (res: bool)
    ensures
        res == strings_view(v@).contains(s@),
{
    let mut i: usize = 0;
    while i < v.len()
        invariant
            i <= v.len(),
            forall|k: int| 0 <= k < i ==> v@[k]@ != s@,
        decreases v.len() - i,
    {
        if same_string(&v[i], s) {
            assert(strings_view(v@)[i as int] == s@);
            return true;
        }
        i += 1;
    }
    assert forall|k: int| 0 <= k < strings_view(v@).len() implies strings_view(v@)[k] != s@ by {
        assert(strings_view(v@)[k] == v@[k]@);
    }
    false
}

/// The entries that are not parts of `r`.
fn drop_parts(items: Vec<TradeItem>, r: &CraftedSet) -> (res: Vec<TradeItem>)
    ensures
        items_view(res@) == without_parts(items_view(items@), r@),
{
    let ghost iv = items_view(items@);
    let mut out: Vec<TradeItem> = Vec::new();
    let mut i: usize = 0;
    while i < items.len()
        invariant
            i <= items.len(),
            iv == items_view(items@),
            items_view(out@) == without_parts(iv.take(i as int), r@),
        decreases items.len() - i,
    {
        proof {
            let t = iv.take(i + 1);
            assert(t.drop_last() =~= iv.take(i as int));
            assert(t.last() == items@[i as int]@);
        }
        let it = &items[i];
        if !(same_string(&it.unique_name, &r.blueprint_name) || string_listed(
            &r.ingredient_names,
            &it.unique_name,
        )) {
            let c = it.duplicate();
            let ghost before = out@;
            out.push(c);
            assert(items_view(out@) =~= items_view(before).push(c@));
        }
        i += 1;
    }
    assert(iv.take(i as int) =~= iv);
    out
}

/// The entry standing for a built set.
fn make_set_entry(r: &CraftedSet) -> (res: TradeItem)
    ensures
        res@ == set_entry(r@),
{
    let mut item = TradeItem::new(
        r.set_unique_name.as_str(),
        1,
        TradeItemType::ItemSet,
        copy_opt_sub(&r.set_sub_type),
    );
    let mut tags: Vec<String> = Vec::new();
    tags.push("set".to_owned());
    item.properties.tags = tags;
    item.properties.item_name = Some(r.set_name.clone());
    assert(strings_view(item.properties.tags@) =~= seq!["set"@]);
    item
}

/// Each recipe in turn replaces its parts among `items` by the set entry.
pub fn replace_with_sets(items: Vec<TradeItem>, recipes: &Vec<CraftedSet>) -> (res: Vec<TradeItem>)
    ensures
        items_view(res@) == apply_sets(items_view(items@), sets_view(recipes@)),
{
    let mut cur = items;
    let mut i: usize = 0;
    let ghost rv = sets_view(recipes@);
    let ghost start = items_view(cur@);
    assert(rv.subrange(0, rv.len() as int) =~= rv);
    while i < recipes.len()
        invariant
            i <= recipes.len(),
            rv == sets_view(recipes@),
            apply_sets(start, rv) == apply_sets(items_view(cur@), rv.subrange(i as int, rv.len() as int)),
        decreases recipes.len() - i,
    {
        let ghost before = items_view(cur@);
        let kept = drop_parts(cur, &recipes[i]);
        let mut next = kept;
        let e = make_set_entry(&recipes[i]);
        let ghost kv = items_view(next@);
        next.push(e);
        proof {
            assert(items_view(next@) =~= kv.push(e@));
            let sub = rv.subrange(i as int, rv.len() as int);
            assert(sub[0] == recipes@[i as int]@);
            assert(sub.drop_first() =~= rv.subrange(i + 1, rv.len() as int));
        }
        cur = next;
        i += 1;
    }
    assert(rv.subrange(rv.len() as int, rv.len() as int) =~= Seq::<CraftedSetView>::empty());
    cur
}

/// A trade as parsed from the log or an account export.
#[derive(Debug)]
pub struct PlayerTrade {
    pub player_name: String,
    /// Milliseconds since the Unix epoch, UTC.
    pub trade_time: i64,
    pub trade_type: TradeClassification,
    pub platinum: i64,
    pub credits: i64,
    pub offered_items: Vec<TradeItem>,
    pub received_items: Vec<TradeItem>,
    pub tags: Vec<String>,
    pub names: Vec<String>,
}

/// The contents of a trade.
pub struct PlayerTradeView {
    pub player_name: Seq<char>,
    pub trade_time: i64,
    pub trade_type: TradeClassification,
    pub platinum: i64,
    pub credits: i64,
    pub offered_items: Seq<TradeItemView>,
    pub received_items: Seq<TradeItemView>,
    pub tags: Seq<Seq<char>>,
    pub names: Seq<Seq<char>>,
}

impl View for PlayerTrade {
    type V = PlayerTradeView;

    open spec fn view(&self) -> PlayerTradeView {
        PlayerTradeView {
            player_name: self.player_name@,
            trade_time: self.trade_time,
            trade_type: self.trade_type,
            platinum: self.platinum,
            credits: self.credits,
            offered_items: items_view(self.offered_items@),
            received_items: items_view(self.received_items@),
            tags: strings_view(self.tags@),
            names: strings_view(self.names@),
        }
    }
}

/// The entries a classification looks at: offered ones for a purchase, received
/// ones for a sale, received then offered for `Any`, none otherwise.
pub open spec fn source_items(t: PlayerTradeView, c: TradeClassification) -> Seq<TradeItemView> {
    match c {
        TradeClassification::Purchase => t.offered_items,
        TradeClassification::Sale => t.received_items,
        TradeClassification::Any => t.received_items + t.offered_items,
        _ => Seq::empty(),
    }
}

/// The valid entries for a classification: its source entries whose type is not
/// excluded and not unknown.
pub open spec fn valid_items_spec(t: PlayerTradeView, c: TradeClassification, exclude: Seq<TradeItemType>) -> Seq<TradeItemView> {
    keep_types(source_items(t, c), exclude.push(TradeItemType::Unknown))
}

/// The sums `finalize_trade` takes stay in range.
pub open spec fn trade_sums_fit(t: PlayerTradeView) -> bool {
    &&& sums_fit(t.offered_items, TradeItemType::Platinum)
    &&& sums_fit(t.received_items, TradeItemType::Platinum)
    &&& sums_fit(t.offered_items, TradeItemType::Credits)
}

/// The number of valid entries of `items` that are not credits.
pub open spec fn goods_count(items: Seq<TradeItemView>) -> int {
    keep_types(items, seq![TradeItemType::Unknown, TradeItemType::Credits]).len() as int
}

/// What `finalize_trade` makes of a trade.
pub open spec fn finalize_spec(t: PlayerTradeView) -> PlayerTradeView {
    let offer = typed_total(t.offered_items, TradeItemType::Platinum);
    let receive = typed_total(t.received_items, TradeItemType::Platinum);
    PlayerTradeView {
        credits: typed_total(t.offered_items, TradeItemType::Credits) as i64,
        platinum: if receive > 0 {
            receive as i64
        } else if offer > 0 {
            offer as i64
        } else {
            t.platinum
        },
        trade_type: classify_spec(offer, receive, goods_count(t.offered_items), goods_count(t.received_items)),
        ..t
    }
}

/// An empty trade at the given time: no partner name, unknown type, no entries.
pub open spec fn empty_trade(trade_time: i64) -> PlayerTradeView {
    PlayerTradeView {
        player_name: ""@,
        trade_time,
        trade_type: TradeClassification::Unknown,
        platinum: 0,
        credits: 0,
        offered_items: Seq::empty(),
        received_items: Seq::empty(),
        tags: Seq::empty(),
        names: Seq::empty(),
    }
}

impl PlayerTrade {
    /// An empty trade at the given time (see `empty_trade`).
    pub fn new(trade_time: i64) -> (res: PlayerTrade)
        ensures
            res@ == empty_trade(trade_time),
    {
        let r = PlayerTrade {
            player_name: "".to_owned(),
            trade_time,
            trade_type: TradeClassification::Unknown,
            platinum: 0,
            credits: 0,
            offered_items: Vec::new(),
            received_items: Vec::new(),
            tags: Vec::new(),
            names: Vec::new(),
        };
        assert(items_view(r.offered_items@) =~= Seq::<TradeItemView>::empty());
        assert(items_view(r.received_items@) =~= Seq::<TradeItemView>::empty());
        assert(strings_view(r.tags@) =~= Seq::<Seq<char>>::empty());
        assert(strings_view(r.names@) =~= Seq::<Seq<char>>::empty());
        r
    }

    /// A copy with the same contents.
    pub fn duplicate(&self) -> (res: PlayerTrade)
        ensures
            res@ == self@,
    {
        let none: Vec<TradeItemType> = Vec::new();
        proof {
            lemma_keep_nothing(items_view(self.offered_items@));
            lemma_keep_nothing(items_view(self.received_items@));
        }
        PlayerTrade {
            player_name: self.player_name.clone(),
            trade_time: self.trade_time,
            trade_type: self.trade_type,
            platinum: self.platinum,
            credits: self.credits,
            offered_items: keep_items(&self.offered_items, &none),
            received_items: keep_items(&self.received_items, &none),
            tags: copy_strings(&self.tags),
            names: copy_strings(&self.names),
        }
    }

    /// The trade is a purchase.
    pub fn is_purchase(&self) -> (res: bool)
        ensures
            res == (self.trade_type == TradeClassification::Purchase),
    {
        self.trade_type == TradeClassification::Purchase
    }

    /// The trade is a sale.
    pub fn is_sale(&self) -> (res: bool)
        ensures
            res == (self.trade_type == TradeClassification::Sale),
    {
        self.trade_type == TradeClassification::Sale
    }

    /// Platinum received: the total quantity of received platinum entries.
    pub fn get_received_plat(&self) -> (res: i64)
        requires
            sums_fit(self@.received_items, TradeItemType::Platinum),
        ensures
            res as int == typed_total(self@.received_items, TradeItemType::Platinum),
    {
        total_of_type(&self.received_items, TradeItemType::Platinum)
    }

    /// Platinum offered: the total quantity of offered platinum entries.
    pub fn get_offered_plat(&self) -> (res: i64)
        requires
            sums_fit(self@.offered_items, TradeItemType::Platinum),
        ensures
            res as int == typed_total(self@.offered_items, TradeItemType::Platinum),
    {
        total_of_type(&self.offered_items, TradeItemType::Platinum)
    }

    /// Copies of the valid entries for a classification (see `valid_items_spec`).
    pub fn get_valid_items(&self, trade_type: TradeClassification, exclude_types: Vec<TradeItemType>) -> (res: Vec<
        TradeItem,
    >)
        ensures
            items_view(res@) == valid_items_spec(self@, trade_type, exclude_types@),
    {
        let mut exclude = exclude_types;
        exclude.push(TradeItemType::Unknown);
        match trade_type {
            TradeClassification::Purchase => keep_items(&self.offered_items, &exclude),
            TradeClassification::Sale => keep_items(&self.received_items, &exclude),
            TradeClassification::Any => {
                let all = chain_items(&self.received_items, &self.offered_items);
                keep_items(&all, &exclude)
            },
            _ => {
                let empty: Vec<TradeItem> = Vec::new();
                assert(items_view(empty@) =~= Seq::<TradeItemView>::empty());
                empty
            },
        }
    }

    /// Sets the credits (offered credits), the platinum (received platinum when
    /// positive, else offered platinum when positive, else unchanged) and the
    /// classification from the platinum totals and the numbers of valid non-credit
    /// entries on each side.
    pub fn finalize_trade(&mut self)
        requires
            trade_sums_fit(old(self)@),
        ensures
            final(self)@ == finalize_spec(old(self)@),
    {
        let offer_plat = self.get_offered_plat();
        let receive_plat = self.get_received_plat();
        self.credits = total_of_type(&self.offered_items, TradeItemType::Credits);
        if offer_plat > 0 {
            self.platinum = offer_plat;
        }
        if receive_plat > 0 {
            self.platinum = receive_plat;
        }
        let mut no_credits: Vec<TradeItemType> = Vec::new();
        no_credits.push(TradeItemType::Credits);
        let empty: Vec<TradeItemType> = Vec::new();
        let offered = keep_items(&self.get_valid_items(TradeClassification::Purchase, empty), &no_credits);
        let empty2: Vec<TradeItemType> = Vec::new();
        let received = keep_items(&self.get_valid_items(TradeClassification::Sale, empty2), &no_credits);
        proof {
            lemma_keep_twice(self@.offered_items, TradeItemType::Unknown, TradeItemType::Credits);
            lemma_keep_twice(self@.received_items, TradeItemType::Unknown, TradeItemType::Credits);
            assert(Seq::<TradeItemType>::empty().push(TradeItemType::Unknown) =~= seq![TradeItemType::Unknown]);
            assert(no_credits@ =~= seq![TradeItemType::Credits]);
        }
        self.trade_type = TradeClassification::classify_trade(
            offer_plat,
            receive_plat,
            offered.len(),
            received.len(),
        );
    }

    /// Replaces, on the side a classification names (offered for a purchase,
    /// received for a sale), the parts of each set the catalogue finds buildable by
    /// the set itself; nothing changes when the side has at most one valid entry,
    /// when `recipes` is empty, or for other classifications.
    pub fn is_set(&mut self, trade_type: TradeClassification, recipes: &Vec<CraftedSet>)
        ensures
            final(self)@ == is_set_spec(old(self)@, trade_type, sets_view(recipes@)),
    {
        let empty: Vec<TradeItemType> = Vec::new();
        let items = self.get_valid_items(trade_type, empty);
        if items.len() <= 1 {
            return;
        }
        if recipes.len() == 0 {
            return;
        }
        match trade_type {
            TradeClassification::Purchase => {
                let mut cur: Vec<TradeItem> = Vec::new();
                std::mem::swap(&mut cur, &mut self.offered_items);
                self.offered_items = replace_with_sets(cur, recipes);
            },
            TradeClassification::Sale => {
                let mut cur: Vec<TradeItem> = Vec::new();
                std::mem::swap(&mut cur, &mut self.received_items);
                self.received_items = replace_with_sets(cur, recipes);
            },
            _ => {},
        }
        proof {
            assert(Seq::<TradeItemType>::empty().push(TradeItemType::Unknown) =~= seq![TradeItemType::Unknown]);
        }
    }

    /// Runs `is_set` for purchases with `purchase_recipes`, then for sales with
    /// `sale_recipes`.
    pub fn finalize_items(&mut self, purchase_recipes: &Vec<CraftedSet>, sale_recipes: &Vec<CraftedSet>)
        ensures
            final(self)@ == is_set_spec(
                is_set_spec(old(self)@, TradeClassification::Purchase, sets_view(purchase_recipes@)),
                TradeClassification::Sale,
                sets_view(sale_recipes@),
            ),
    {
        self.is_set(TradeClassification::Purchase, purchase_recipes);
        self.is_set(TradeClassification::Sale, sale_recipes);
    }

    /// Sets the trade time and returns a copy of the trade.
    pub fn set_time(&mut self, time: i64) -> (res: PlayerTrade)
        ensures
            final(self)@ == (PlayerTradeView { trade_time: time, ..old(self)@ }),
            res@ == final(self)@,
    {
        self.trade_time = time;
        self.duplicate()
    }
}

/// What `is_set` makes of a trade.
pub open spec fn is_set_spec(t: PlayerTradeView, c: TradeClassification, recipes: Seq<CraftedSetView>) -> PlayerTradeView {
    if valid_items_spec(t, c, Seq::empty()).len() <= 1 || recipes.len() == 0 {
        t
    } else if c == TradeClassification::Purchase {
        PlayerTradeView { offered_items: apply_sets(t.offered_items, recipes), ..t }
    } else if c == TradeClassification::Sale {
        PlayerTradeView { received_items: apply_sets(t.received_items, recipes), ..t }
    } else {
        t
    }
}

/// Excluding `a` then `b` is excluding both.
pub proof fn lemma_keep_twice(items: Seq<TradeItemView>, a: TradeItemType, b: TradeItemType)
    ensures
        keep_types(keep_types(items, seq![a]), seq![b]) == keep_types(items, seq![a, b]),
    decreases items.len(),
{
    if items.len() > 0 {
        lemma_keep_twice(items.drop_last(), a, b);
        let x = items.last();
        assert(seq![a].contains(x.item_type) <==> x.item_type == a) by {
            if x.item_type == a {
                assert(seq![a][0] == a);
            }
        }
        assert(seq![b].contains(x.item_type) <==> x.item_type == b) by {
            if x.item_type == b {
                assert(seq![b][0] == b);
            }
        }
        assert(seq![a, b].contains(x.item_type) <==> (x.item_type == a || x.item_type == b)) by {
            if x.item_type == a {
                assert(seq![a, b][0] == a);
            }
            if x.item_type == b {
                assert(seq![a, b][1] == b);
            }
        }
        if !seq![a].contains(x.item_type) {
            let k = keep_types(items.drop_last(), seq![a]);
            assert(k.push(x).drop_last() =~= k);
        }
    }
}

/// Every entry kept by `keep_types` is one of the given entries, and none has
/// an excluded type.
pub proof fn lemma_keep_types_excludes(items: Seq<TradeItemView>, excluded: Seq<TradeItemType>)
    ensures
        forall|i: int|
            0 <= i < keep_types(items, excluded).len() ==> !excluded.contains(
                (#[trigger] keep_types(items, excluded)[i]).item_type,
            ) && items.contains(keep_types(items, excluded)[i]),
    decreases items.len(),
{
    if items.len() > 0 {
        let rest = items.drop_last();
        lemma_keep_types_excludes(rest, excluded);
        let k = keep_types(rest, excluded);
        assert forall|i: int| 0 <= i < k.len() implies items.contains(#[trigger] k[i]) by {
            let j = choose|j: int| 0 <= j < rest.len() && rest[j] == k[i];
            assert(items[j] == rest[j]);
        }
        assert(items[items.len() - 1] == items.last());
    }
}

/// The valid entries of a trade for a classification are entries of that
/// side, never of unknown type and never of an excluded type.
pub proof fn lemma_valid_items_known(t: PlayerTradeView, c: TradeClassification, exclude: Seq<TradeItemType>)
    ensures
        forall|i: int|
            0 <= i < valid_items_spec(t, c, exclude).len() ==> {
                let x = #[trigger] valid_items_spec(t, c, exclude)[i];
                &&& x.item_type != TradeItemType::Unknown
                &&& !exclude.contains(x.item_type)
                &&& source_items(t, c).contains(x)
            },
{
    let ex = exclude.push(TradeItemType::Unknown);
    lemma_keep_types_excludes(source_items(t, c), ex);
    assert(ex[exclude.len() as int] == TradeItemType::Unknown);
    assert forall|i: int| 0 <= i < valid_items_spec(t, c, exclude).len() implies !exclude.contains(
        #[trigger] valid_items_spec(t, c, exclude)[i].item_type,
    ) by {
        let x = valid_items_spec(t, c, exclude)[i];
        if exclude.contains(x.item_type) {
            let j = choose|j: int| 0 <= j < exclude.len() && exclude[j] == x.item_type;
            assert(ex[j] == exclude[j]);
        }
    }
}

/// Finalising a trade a second time changes nothing: the totals, platinum and
/// classification are computed from the entries, which finalising leaves alone.
pub proof fn lemma_finalize_idempotent(t: PlayerTradeView)
    ensures
        finalize_spec(finalize_spec(t)) == finalize_spec(t),
        trade_sums_fit(t) ==> trade_sums_fit(finalize_spec(t)),
{
}

/// A finalised trade is a purchase only when more than 1 platinum was offered
/// and exactly one valid entry other than credits was offered, and a sale only
/// when it is no purchase and more than 1 platinum was received for exactly one
/// valid entry other than credits received.
pub proof fn lemma_finalize_classification(t: PlayerTradeView)
    ensures
        ({
            let f = finalize_spec(t);
            let purchase = typed_total(t.offered_items, TradeItemType::Platinum) > 1 && goods_count(t.offered_items) == 1;
            let sale = typed_total(t.received_items, TradeItemType::Platinum) > 1 && goods_count(t.received_items) == 1;
            &&& (f.trade_type == TradeClassification::Purchase <==> purchase)
            &&& (f.trade_type == TradeClassification::Sale <==> !purchase && sale)
            &&& (f.trade_type == TradeClassification::Trade <==> !purchase && !sale)
        }),
{
    crate::enums::lemma_classify_meaning(
        typed_total(t.offered_items, TradeItemType::Platinum),
        typed_total(t.received_items, TradeItemType::Platinum),
        goods_count(t.offered_items),
        goods_count(t.received_items),
    );
}
} // verus!
