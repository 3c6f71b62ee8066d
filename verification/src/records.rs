//! The records of an account data export: logins, shop purchases and payment
//! transactions. Times are milliseconds since the Unix epoch, UTC.
use vstd::prelude::*;
use crate::trade::{opt_str_view, copy_opt_string};

verus! {

/// A login to the game.
#[derive(Debug)]
pub struct Login {
    pub date: i64,
    pub ip: Option<String>,
    pub client_type: Option<String>,
}

/// The contents of a login.
pub struct LoginView {
    pub date: i64,
    pub ip: Option<Seq<char>>,
    pub client_type: Option<Seq<char>>,
}

impl View for Login {
    type V = LoginView;

    open spec fn view(&self) -> LoginView {
        LoginView { date: self.date, ip: opt_str_view(self.ip), client_type: opt_str_view(self.client_type) }
    }
}

impl Login {
    /// A login at `date` with nothing else known.
    pub fn new(date: i64) -> (res: Login)
        ensures
            res@ == (LoginView { date, ip: None, client_type: None }),
    {
        Login { date, ip: None, client_type: None }
    }

    /// A copy with the same contents.
    pub fn duplicate(&self) -> (res: Login)
        ensures
            res@ == self@,
    {
        Login { date: self.date, ip: copy_opt_string(&self.ip), client_type: copy_opt_string(&self.client_type) }
    }
}

/// An item received with a shop purchase.
#[derive(Debug)]
pub struct PurchaseItem {
    pub name: String,
    pub quantity: i64,
}

impl View for PurchaseItem {
    type V = (Seq<char>, i64);

    open spec fn view(&self) -> (Seq<char>, i64) {
        (self.name@, self.quantity)
    }
}

/// The contents of received items.
pub open spec fn purchase_items_view(v: Seq<PurchaseItem>) -> Seq<(Seq<char>, i64)> {
    v.map_values(|p: PurchaseItem| p@)
}

impl PurchaseItem {
    /// An item and how many were received.
    pub fn new(name: String, quantity: i64) -> (res: PurchaseItem)
        ensures
            res@ == (name@, quantity),
    {
        PurchaseItem { name, quantity }
    }

    /// A copy with the same contents.
    pub fn duplicate(&self) -> (res: PurchaseItem)
        ensures
            res@ == self@,
    {
        PurchaseItem { name: self.name.clone(), quantity: self.quantity }
    }
}

/// A purchase in the in-game shop.
#[derive(Debug)]
pub struct Purchase {
    pub shop_id: String,
    pub date: i64,
    pub price: i64,
    pub items_received: Vec<PurchaseItem>,
}

/// The contents of a purchase.
pub struct PurchaseView {
    pub shop_id: Seq<char>,
    pub date: i64,
    pub price: i64,
    pub items_received: Seq<(Seq<char>, i64)>,
}

impl View for Purchase {
    type V = PurchaseView;

    open spec fn view(&self) -> PurchaseView {
        PurchaseView {
            shop_id: self.shop_id@,
            date: self.date,
            price: self.price,
            items_received: purchase_items_view(self.items_received@),
        }
    }
}

impl Purchase {
    /// A purchase at `date` with nothing else known yet.
    pub fn new(date: i64) -> (res: Purchase)
        ensures
            res@ == (PurchaseView { shop_id: Seq::empty(), date, price: 0, items_received: Seq::empty() }),
    {
        let r = Purchase { shop_id: String::new(), date, price: 0, items_received: Vec::new() };
        assert(purchase_items_view(r.items_received@) =~= Seq::<(Seq<char>, i64)>::empty());
        r
    }

    /// A copy with the same contents.
    pub fn duplicate(&self) -> (res: Purchase)
        ensures
            res@ == self@,
    {
        let mut items: Vec<PurchaseItem> = Vec::new();
        let mut i: usize = 0;
        while i < self.items_received.len()
            invariant
                i <= self.items_received.len(),
                purchase_items_view(items@) == purchase_items_view(self.items_received@).subrange(0, i as int),
            decreases self.items_received.len() - i,
        {
            let ghost before = purchase_items_view(items@);
            let it = self.items_received[i].duplicate();
            items.push(it);
            assert(purchase_items_view(items@) =~= before.push(self.items_received@[i as int]@));
            assert(purchase_items_view(self.items_received@).subrange(0, i + 1) =~= purchase_items_view(
                self.items_received@,
            ).subrange(0, i as int).push(self.items_received@[i as int]@));
            i += 1;
        }
        assert(purchase_items_view(self.items_received@).subrange(0, i as int) =~= purchase_items_view(
            self.items_received@,
        ));
        Purchase { shop_id: self.shop_id.clone(), date: self.date, price: self.price, items_received: items }
    }
}

/// A payment made for the game outside it.
#[derive(Debug)]
pub struct Transaction {
    pub sku: String,
    /// The amount paid, as a whole number: the export's decimal amount with its
    /// fraction cut off (see `decimal_whole_spec`).
    pub price: i64,
    pub currency: String,
    pub vendor: String,
    pub date: i64,
    pub account: String,
}

/// The contents of a transaction.
pub struct TransactionView {
    pub sku: Seq<char>,
    pub price: i64,
    pub currency: Seq<char>,
    pub vendor: Seq<char>,
    pub date: i64,
    pub account: Seq<char>,
}

impl View for Transaction {
    type V = TransactionView;

    open spec fn view(&self) -> TransactionView {
        TransactionView {
            sku: self.sku@,
            price: self.price,
            currency: self.currency@,
            vendor: self.vendor@,
            date: self.date,
            account: self.account@,
        }
    }
}

impl Transaction {
    /// A transaction at `date` with nothing else known yet.
    pub fn new(date: i64) -> (res: Transaction)
        ensures
            res@ == (TransactionView {
                sku: Seq::empty(),
                price: 0,
                currency: Seq::empty(),
                vendor: Seq::empty(),
                date,
                account: Seq::empty(),
            }),
    {
        Transaction {
            sku: String::new(),
            price: 0,
            currency: String::new(),
            vendor: String::new(),
            date,
            account: String::new(),
        }
    }

    /// A copy with the same contents.
    pub fn duplicate(&self) -> (res: Transaction)
        ensures
            res@ == self@,
    {
        Transaction {
            sku: self.sku.clone(),
            price: self.price,
            currency: self.currency.clone(),
            vendor: self.vendor.clone(),
            date: self.date,
            account: self.account.clone(),
        }
    }
}

} // verus!
