//! An account as an account data export describes it, and how a trade from the
//! export is completed before it is stored.
use vstd::prelude::*;
use crate::records::{Login, Purchase, Transaction};
use crate::trade::{
    CraftedSet, PlayerTrade, PlayerTradeView, TradeItem, TradeItemView, ItemPropertiesView, items_view, strings_view,
    finalize_spec, is_set_spec, sets_view, trade_sums_fit, copy_strings, sums_fit, typed_total,
};
use crate::enums::TradeItemType;
use crate::enums::TradeClassification;

verus! {

/// An account and its recorded activity.
#[derive(Debug)]
pub struct Account {
    pub oid: String,
    pub email: String,
    pub display_name: String,
    pub activated: bool,
    pub subscribed_to_emails: bool,
    pub signup_language: String,
    pub signup_country_code: String,
    pub country_code: String,
    pub signup_page: String,
    pub ips: Vec<String>,
    pub account_creation_date: Option<i64>,
    pub last_login_date: Option<i64>,
    pub language: String,
    pub trades: Vec<PlayerTrade>,
    pub logins: Vec<Login>,
    pub purchases: Vec<Purchase>,
    pub transactions: Vec<Transaction>,
}

/// An account's details and activity.
pub struct AccountView {
    pub oid: Seq<char>,
    pub email: Seq<char>,
    pub display_name: Seq<char>,
    pub activated: bool,
    pub subscribed_to_emails: bool,
    pub signup_language: Seq<char>,
    pub signup_country_code: Seq<char>,
    pub country_code: Seq<char>,
    pub signup_page: Seq<char>,
    pub ips: Seq<Seq<char>>,
    pub account_creation_date: Option<i64>,
    pub last_login_date: Option<i64>,
    pub language: Seq<char>,
    pub trades: Seq<PlayerTradeView>,
    pub logins: Seq<crate::records::LoginView>,
    pub purchases: Seq<crate::records::PurchaseView>,
    pub transactions: Seq<crate::records::TransactionView>,
}

impl View for Account {
    type V = AccountView;

    open spec fn view(&self) -> AccountView {
        AccountView {
            oid: self.oid@,
            email: self.email@,
            display_name: self.display_name@,
            activated: self.activated,
            subscribed_to_emails: self.subscribed_to_emails,
            signup_language: self.signup_language@,
            signup_country_code: self.signup_country_code@,
            country_code: self.country_code@,
            signup_page: self.signup_page@,
            ips: strings_view(self.ips@),
            account_creation_date: self.account_creation_date,
            last_login_date: self.last_login_date,
            language: self.language@,
            trades: trades_of(self.trades@),
            logins: self.logins@.map_values(|l: Login| l@),
            purchases: self.purchases@.map_values(|p: Purchase| p@),
            transactions: self.transactions@.map_values(|t: Transaction| t@),
        }
    }
}

/// An account with nothing recorded.
pub open spec fn empty_account() -> AccountView {
    AccountView {
        oid: Seq::empty(),
        email: Seq::empty(),
        display_name: Seq::empty(),
        activated: false,
        subscribed_to_emails: false,
        signup_language: Seq::empty(),
        signup_country_code: Seq::empty(),
        country_code: Seq::empty(),
        signup_page: Seq::empty(),
        ips: Seq::empty(),
        account_creation_date: None,
        last_login_date: None,
        language: Seq::empty(),
        trades: Seq::empty(),
        logins: Seq::empty(),
        purchases: Seq::empty(),
        transactions: Seq::empty(),
    }
}

/// The contents of a list of trades.
pub open spec fn trades_of(v: Seq<PlayerTrade>) -> Seq<PlayerTradeView> {
    v.map_values(|t: PlayerTrade| t@)
}

impl Account {
    /// An account with nothing recorded.
    pub fn new() -> (res: Account)
        ensures
            res.oid@ == Seq::<char>::empty(),
            res.email@ == Seq::<char>::empty(),
            res.display_name@ == Seq::<char>::empty(),
            !res.activated,
            !res.subscribed_to_emails,
            res.signup_language@ == Seq::<char>::empty(),
            res.signup_country_code@ == Seq::<char>::empty(),
            res.country_code@ == Seq::<char>::empty(),
            res.signup_page@ == Seq::<char>::empty(),
            res.ips@.len() == 0,
            res.account_creation_date is None,
            res.last_login_date is None,
            res.language@ == Seq::<char>::empty(),
            res.trades@.len() == 0,
            res.logins@.len() == 0,
            res.purchases@.len() == 0,
            res.transactions@.len() == 0,
    {
        Account {
            oid: String::new(),
            email: String::new(),
            display_name: String::new(),
            activated: false,
            subscribed_to_emails: false,
            signup_language: String::new(),
            signup_country_code: String::new(),
            country_code: String::new(),
            signup_page: String::new(),
            ips: Vec::new(),
            account_creation_date: None,
            last_login_date: None,
            language: String::new(),
            trades: Vec::new(),
            logins: Vec::new(),
            purchases: Vec::new(),
            transactions: Vec::new(),
        }
    }
}

/// The entries of both sides, offered first.
pub open spec fn all_items(t: PlayerTradeView) -> Seq<TradeItemView> {
    t.offered_items + t.received_items
}

/// The tags of the entries, one entry after the other.
pub open spec fn flat_tags(items: Seq<TradeItemView>) -> Seq<Seq<char>>
    decreases items.len(),
{
    if items.len() == 0 {
        Seq::empty()
    } else {
        flat_tags(items.drop_last()) + items.last().properties.tags
    }
}

/// An entry's display name, empty when none is recorded.
pub open spec fn name_of(i: TradeItemView) -> Seq<char> {
    match i.properties.item_name {
        Some(n) => n,
        None => Seq::empty(),
    }
}

/// The trade with the tags and the display names of its entries collected.
pub open spec fn item_info_spec(t: PlayerTradeView) -> PlayerTradeView {
    PlayerTradeView {
        tags: flat_tags(all_items(t)),
        names: all_items(t).map_values(|i: TradeItemView| name_of(i)),
        ..t
    }
}

/// An entry without a display name gets its raw text as one.
pub open spec fn named_spec(i: TradeItemView) -> TradeItemView {
    if name_of(i).len() == 0 {
        TradeItemView { properties: ItemPropertiesView { item_name: Some(i.raw), ..i.properties }, ..i }
    } else {
        i
    }
}

/// The trade with every entry named.
pub open spec fn named_trade(t: PlayerTradeView) -> PlayerTradeView {
    PlayerTradeView {
        offered_items: t.offered_items.map_values(|i: TradeItemView| named_spec(i)),
        received_items: t.received_items.map_values(|i: TradeItemView| named_spec(i)),
        ..t
    }
}

/// What `add_trade` stores for a trade: finalised, sets found on both sides,
/// tags and names collected, then every entry named.
pub open spec fn stored_trade(t: PlayerTradeView, purchase_recipes: Seq<crate::trade::CraftedSetView>, sale_recipes: Seq<
    crate::trade::CraftedSetView,
>) -> PlayerTradeView {
    named_trade(
        item_info_spec(
            is_set_spec(
                is_set_spec(finalize_spec(t), TradeClassification::Purchase, purchase_recipes),
                TradeClassification::Sale,
                sale_recipes,
            ),
        ),
    )
}

fn collect_tags(items: &Vec<TradeItem>, out: &mut Vec<String>)
    ensures
        strings_view(final(out)@) == strings_view(old(out)@) + flat_tags(items_view(items@)),
{
    let ghost iv = items_view(items@);
    let mut i: usize = 0;
    while i < items.len()
        invariant
            i <= items.len(),
            iv == items_view(items@),
            strings_view(out@) == strings_view(old(out)@) + flat_tags(iv.subrange(0, i as int)),
        decreases items.len() - i,
    {
        let ghost before = strings_view(out@);
        let tags = &items[i].properties.tags;
        let mut j: usize = 0;
        while j < tags.len()
            invariant
                j <= tags.len(),
                strings_view(out@) == before + strings_view(tags@).subrange(0, j as int),
            decreases tags.len() - j,
        {
            let ghost b2 = strings_view(out@);
            out.push(tags[j].clone());
            assert(strings_view(out@) =~= b2.push(tags@[j as int]@));
            assert(strings_view(tags@).subrange(0, j + 1) =~= strings_view(tags@).subrange(0, j as int).push(tags@[j as int]@));
            j += 1;
        }
        assert(strings_view(tags@).subrange(0, j as int) =~= strings_view(tags@));
        assert(iv.subrange(0, i + 1).drop_last() =~= iv.subrange(0, i as int));
        assert(iv[i as int] == items@[i as int]@);
        assert(before + strings_view(tags@) =~= strings_view(old(out)@) + flat_tags(iv.subrange(0, i + 1)));
        i += 1;
    }
    assert(iv.subrange(0, i as int) =~= iv);
}

proof fn lemma_flat_tags_concat(a: Seq<TradeItemView>, b: Seq<TradeItemView>)
    ensures
        flat_tags(a + b) == flat_tags(a) + flat_tags(b),
    decreases b.len(),
{
    if b.len() == 0 {
        assert(a + b =~= a);
        assert(flat_tags(a) + Seq::<Seq<char>>::empty() =~= flat_tags(a));
    } else {
        lemma_flat_tags_concat(a, b.drop_last());
        assert((a + b).drop_last() =~= a + b.drop_last());
        assert(flat_tags(a) + flat_tags(b.drop_last()) + b.last().properties.tags =~= flat_tags(a) + (flat_tags(
            b.drop_last(),
        ) + b.last().properties.tags));
    }
}

fn name_or_empty(o: &Option<String>) -> (res: String)
    ensures
        res@ == match *o {
            Some(n) => n@,
            None => Seq::<char>::empty(),
        },
{
    match o {
        Some(n) => n.clone(),
        None => String::new(),
    }
}

fn collect_names(items: &Vec<TradeItem>, out: &mut Vec<String>)
    ensures
        strings_view(final(out)@) == strings_view(old(out)@) + items_view(items@).map_values(|i: TradeItemView| name_of(i)),
{
    let ghost iv = items_view(items@);
    let mut i: usize = 0;
    while i < items.len()
        invariant
            i <= items.len(),
            iv == items_view(items@),
            strings_view(out@) == strings_view(old(out)@) + iv.map_values(|i: TradeItemView| name_of(i)).subrange(0, i as int),
        decreases items.len() - i,
    {
        let ghost before = strings_view(out@);
        let n = name_or_empty(&items[i].properties.item_name);
        assert(iv[i as int] == items@[i as int]@);
        out.push(n);
        assert(strings_view(out@) =~= before.push(n@));
        assert(strings_view(old(out)@) + iv.map_values(|i: TradeItemView| name_of(i)).subrange(0, i + 1) =~= before.push(n@));
        i += 1;
    }
    assert(iv.map_values(|i: TradeItemView| name_of(i)).subrange(0, i as int) =~= iv.map_values(|i: TradeItemView| name_of(i)));
}

/// Collects the tags and the display names of a trade's entries (see
/// `item_info_spec`).
pub fn apply_item_info(trade: &mut PlayerTrade)
    ensures
        final(trade)@ == item_info_spec(old(trade)@),
{
    let mut tags: Vec<String> = Vec::new();
    assert(strings_view(tags@) =~= Seq::<Seq<char>>::empty());
    collect_tags(&trade.offered_items, &mut tags);
    collect_tags(&trade.received_items, &mut tags);
    let mut names: Vec<String> = Vec::new();
    assert(strings_view(names@) =~= Seq::<Seq<char>>::empty());
    collect_names(&trade.offered_items, &mut names);
    collect_names(&trade.received_items, &mut names);
    proof {
        let t = trade@;
        lemma_flat_tags_concat(t.offered_items, t.received_items);
        assert(Seq::<Seq<char>>::empty() + flat_tags(t.offered_items) + flat_tags(t.received_items) =~= flat_tags(all_items(t)));
        assert(Seq::<Seq<char>>::empty() + t.offered_items.map_values(|i: TradeItemView| name_of(i)) + t.received_items.map_values(
            |i: TradeItemView| name_of(i),
        ) =~= all_items(t).map_values(|i: TradeItemView| name_of(i)));
    }
    trade.tags = tags;
    trade.names = names;
}

fn name_items(items: &mut Vec<TradeItem>)
    ensures
        items_view(final(items)@) == items_view(old(items)@).map_values(|i: TradeItemView| named_spec(i)),
{
    let ghost orig = items_view(items@);
    let mut i: usize = 0;
    while i < items.len()
        invariant
            i <= items.len(),
            items.len() == orig.len(),
            forall|k: int| 0 <= k < i ==> #[trigger] items@[k]@ == named_spec(orig[k]),
            forall|k: int| i <= k < items.len() ==> #[trigger] items@[k]@ == orig[k],
        decreases items.len() - i,
    {
        let empty = match &items[i].properties.item_name {
            Some(n) => crate::text::chars_of_string(n).len() == 0,
            None => true,
        };
        assert(items@[i as int]@ == orig[i as int]);
        if empty {
            let mut it = items[i].duplicate();
            it.properties.item_name = Some(items[i].raw.clone());
            let ghost v = it@;
            items.set(i, it);
            assert(items@[i as int]@ == v);
        }
        i += 1;
    }
    assert(items_view(items@) =~= orig.map_values(|i: TradeItemView| named_spec(i)));
}

/// Whether summing the quantities of type `ty` in order stays in range (see
/// `sums_fit`).
pub fn sums_fit_exec(items: &Vec<TradeItem>, ty: TradeItemType) -> (res: bool)
    ensures
        res == sums_fit(items_view(items@), ty),
{
    let ghost iv = items_view(items@);
    let mut total: i64 = 0;
    let mut i: usize = 0;
    assert(iv.take(0) =~= Seq::<TradeItemView>::empty());
    while i < items.len()
        invariant
            i <= items.len(),
            iv == items_view(items@),
            total as int == typed_total(iv.take(i as int), ty),
            forall|k: int| 0 <= k <= i ==> i64::MIN <= #[trigger] typed_total(iv.take(k), ty) <= i64::MAX,
        decreases items.len() - i,
    {
        proof {
            let t = iv.take(i + 1);
            assert(t.drop_last() =~= iv.take(i as int));
            assert(t.last() == items@[i as int]@);
        }
        if items[i].item_type == ty {
            match total.checked_add(items[i].quantity) {
                Some(n) => {
                    total = n;
                },
                None => {
                    assert(!(i64::MIN <= typed_total(iv.take(i + 1), ty) <= i64::MAX));
                    return false;
                },
            }
        }
        i += 1;
    }
    assert(iv.take(i as int) =~= iv);
    true
}

/// Whether the sums `finalize_trade` takes stay in range (see `trade_sums_fit`).
pub fn trade_totals_fit(t: &PlayerTrade) -> (res: bool)
    ensures
        res == trade_sums_fit(t@),
{
    sums_fit_exec(&t.offered_items, TradeItemType::Platinum) && sums_fit_exec(&t.received_items, TradeItemType::Platinum)
        && sums_fit_exec(&t.offered_items, TradeItemType::Credits)
}

impl Account {
    /// Completes a trade from the export and stores it (see `stored_trade`);
    /// `purchase_recipes` and `sale_recipes` are the sets the catalogue finds for
    /// the offered and the received side.
    pub fn add_trade(&mut self, trade: PlayerTrade, purchase_recipes: &Vec<CraftedSet>, sale_recipes: &Vec<CraftedSet>)
        requires
            trade_sums_fit(trade@),
        ensures
            final(self)@ == (AccountView {
                trades: old(self)@.trades.push(stored_trade(trade@, sets_view(purchase_recipes@), sets_view(sale_recipes@))),
                ..old(self)@
            }),
    {
        let mut t = trade;
        t.finalize_trade();
        t.finalize_items(purchase_recipes, sale_recipes);
        apply_item_info(&mut t);
        name_items(&mut t.offered_items);
        name_items(&mut t.received_items);
        let ghost before = trades_of(self.trades@);
        let ghost tv = t@;
        self.trades.push(t);
        assert(trades_of(self.trades@) =~= before.push(tv));
    }
}

} // verus!
