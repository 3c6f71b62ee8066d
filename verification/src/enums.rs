//! Classifications used by the trade log parser.
use vstd::prelude::*;

verus! {

/// How a finished trade is classified.
#[derive(Clone, Copy, Debug, PartialEq, Eq, Structural, Hash)]
pub enum TradeClassification {
    Sale,
    Purchase,
    Trade,
    Any,
    Unknown,
}

/// The position of a classification in declaration order (the order a
/// derived `Ord` follows).
pub open spec fn classification_rank(c: TradeClassification) -> int {
    match c {
        TradeClassification::Sale => 0,
        TradeClassification::Purchase => 1,
        TradeClassification::Trade => 2,
        TradeClassification::Any => 3,
        TradeClassification::Unknown => 4,
    }
}

/// The lower-case name of a classification in stored data.
pub open spec fn classification_name(c: TradeClassification) -> Seq<char> {
    match c {
        TradeClassification::Sale => "sale"@,
        TradeClassification::Purchase => "purchase"@,
        TradeClassification::Trade => "trade"@,
        TradeClassification::Any => "any"@,
        TradeClassification::Unknown => "unknown"@,
    }
}

/// The classification a stored name reads as.
pub open spec fn classification_named(name: Seq<char>) -> Option<TradeClassification> {
    if name == "purchase"@ {
        Some(TradeClassification::Purchase)
    } else if name == "sale"@ {
        Some(TradeClassification::Sale)
    } else if name == "trade"@ {
        Some(TradeClassification::Trade)
    } else if name == "any"@ {
        Some(TradeClassification::Any)
    } else if name == "unknown"@ {
        Some(TradeClassification::Unknown)
    } else {
        None
    }
}

/// Reading back a stored name gives the classification it was written for.
pub proof fn lemma_name_round_trip(c: TradeClassification)
    ensures
        classification_named(classification_name(c)) == Some(c),
{
    reveal_strlit("sale");
    reveal_strlit("purchase");
    reveal_strlit("trade");
    reveal_strlit("any");
    reveal_strlit("unknown");
    assert("sale"@[0] != "purchase"@[0]);
    assert("trade"@ != "purchase"@ && "trade"@ != "sale"@) by {
        assert("trade"@[0] != "purchase"@[0]);
        assert("trade"@[0] != "sale"@[0]);
    }
    assert("any"@ != "purchase"@ && "any"@ != "sale"@ && "any"@ != "trade"@) by {
        assert("any"@[0] != "purchase"@[0]);
        assert("any"@[0] != "sale"@[0]);
        assert("any"@[0] != "trade"@[0]);
    }
    assert("unknown"@ != "purchase"@ && "unknown"@ != "sale"@ && "unknown"@ != "trade"@ && "unknown"@ != "any"@) by {
        assert("unknown"@[0] != "purchase"@[0]);
        assert("unknown"@[0] != "sale"@[0]);
        assert("unknown"@[0] != "trade"@[0]);
        assert("unknown"@[0] != "any"@[0]);
    }
}

/// The classification rule: a purchase when more than 1 platinum is offered for
/// exactly one offered entry, otherwise a sale when more than 1 platinum is
/// received for exactly one received entry, otherwise a plain trade.
pub open spec fn classify_spec(offer_plat: int, receive_plat: int, offered: int, received: int) -> TradeClassification {
    if offer_plat > 1 && offered == 1 {
        TradeClassification::Purchase
    } else if receive_plat > 1 && received == 1 {
        TradeClassification::Sale
    } else {
        TradeClassification::Trade
    }
}

/// What the classification means: a purchase exactly when more than 1
/// platinum is offered for exactly one offered entry; a sale exactly when that
/// is not so and more than 1 platinum is received for exactly one received
/// entry; every other trade is a plain trade. No other classification comes out.
pub proof fn lemma_classify_meaning(offer_plat: int, receive_plat: int, offered: int, received: int)
    ensures
        ({
            let c = classify_spec(offer_plat, receive_plat, offered, received);
            let purchase = offer_plat > 1 && offered == 1;
            let sale = receive_plat > 1 && received == 1;
            &&& (c == TradeClassification::Purchase <==> purchase)
            &&& (c == TradeClassification::Sale <==> !purchase && sale)
            &&& (c == TradeClassification::Trade <==> !purchase && !sale)
        }),
{
}

impl TradeClassification {
    /// Declaration-order position, used to sort trades by type.
    pub fn rank(&self) -> (r: u8)
        ensures
            r as int == classification_rank(*self),
    {
        match self {
            TradeClassification::Sale => 0,
            TradeClassification::Purchase => 1,
            TradeClassification::Trade => 2,
            TradeClassification::Any => 3,
            TradeClassification::Unknown => 4,
        }
    }

    /// The lower-case name used in stored data.
    pub fn to_string(&self) -> (res: String)
        ensures
            res@ == classification_name(*self),
    {
        match self {
            TradeClassification::Sale => "sale".to_owned(),
            TradeClassification::Purchase => "purchase".to_owned(),
            TradeClassification::Trade => "trade".to_owned(),
            TradeClassification::Any => "any".to_owned(),
            TradeClassification::Unknown => "unknown".to_owned(),
        }
    }

    /// The capitalised name shown to the user.
    pub fn display(&self) -> (res: String)
        ensures
            res@ == match *self {
                TradeClassification::Sale => "Sale"@,
                TradeClassification::Purchase => "Purchase"@,
                TradeClassification::Trade => "Trade"@,
                TradeClassification::Any => "Any"@,
                TradeClassification::Unknown => "Unknown"@,
            },
    {
        match self {
            TradeClassification::Sale => "Sale".to_owned(),
            TradeClassification::Purchase => "Purchase".to_owned(),
            TradeClassification::Trade => "Trade".to_owned(),
            TradeClassification::Any => "Any".to_owned(),
            TradeClassification::Unknown => "Unknown".to_owned(),
        }
    }

    /// Classifies a trade from the platinum offered and received and the number of
    /// offered and received entries.
    pub fn classify_trade(offer_plat: i64, receive_plat: i64, offered: usize, received: usize) -> (res:
        TradeClassification)
        ensures
            res == classify_spec(offer_plat as int, receive_plat as int, offered as int, received as int),
    {
        if offer_plat > 1 && offered == 1 {
            TradeClassification::Purchase
        } else if receive_plat > 1 && received == 1 {
            TradeClassification::Sale
        } else {
            TradeClassification::Trade
        }
    }

    /// The classification named by a stored lower-case name, if any.
    pub fn from_name(name: &str) -> (res: Option<TradeClassification>)
        ensures
            res == classification_named(name@),
    {
        let n = crate::text::chars_of(name);
        if seq_eq(&n, "purchase") {
            Some(TradeClassification::Purchase)
        } else if seq_eq(&n, "sale") {
            Some(TradeClassification::Sale)
        } else if seq_eq(&n, "trade") {
            Some(TradeClassification::Trade)
        } else if seq_eq(&n, "any") {
            Some(TradeClassification::Any)
        } else if seq_eq(&n, "unknown") {
            Some(TradeClassification::Unknown)
        } else {
            None
        }
    }
}

/// Whether the characters `a` spell exactly the string `b`.
pub fn seq_eq(a: &Vec<char>, b: &str) -> (res: bool)
    ensures
        res == (a@ == b@),
{
    let bv = crate::text::chars_of(b);
    if a.len() != bv.len() {
        return false;
    }
    let mut i: usize = 0;
    while i < a.len()
        invariant
            a.len() == bv.len(),
            bv@ == b@,
            i <= a.len(),
            forall|k: int| 0 <= k < i ==> a@[k] == bv@[k],
        decreases a.len() - i,
    {
        if a[i] != bv[i] {
            return false;
        }
        i += 1;
    }
    assert(a@ =~= bv@);
    true
}

/// The kind of an entry in a trade.
#[derive(Clone, Copy, Debug, PartialEq, Eq, Structural, Hash)]
pub enum TradeItemType {
    Ayatan,
    Platinum,
    Credits,
    MainBlueprint,
    Weapon,
    Relic,
    Component,
    Arcane,
    Lens,
    Mod,
    Fish,
    FusionCore,
    RivenVeiled,
    RivenUnVeiled,
    Imprint,
    ItemSet,
    Unknown,
}

/// The variant's own name.
pub open spec fn item_type_name(t: TradeItemType) -> Seq<char> {
    match t {
        TradeItemType::Ayatan => "Ayatan"@,
        TradeItemType::Platinum => "Platinum"@,
        TradeItemType::Credits => "Credits"@,
        TradeItemType::MainBlueprint => "MainBlueprint"@,
        TradeItemType::Weapon => "Weapon"@,
        TradeItemType::Relic => "Relic"@,
        TradeItemType::Component => "Component"@,
        TradeItemType::Arcane => "Arcane"@,
        TradeItemType::Lens => "Lens"@,
        TradeItemType::Mod => "Mod"@,
        TradeItemType::Fish => "Fish"@,
        TradeItemType::FusionCore => "FusionCore"@,
        TradeItemType::RivenVeiled => "RivenVeiled"@,
        TradeItemType::RivenUnVeiled => "RivenUnVeiled"@,
        TradeItemType::Imprint => "Imprint"@,
        TradeItemType::ItemSet => "Set"@,
        TradeItemType::Unknown => "Unknown"@,
    }
}

impl TradeItemType {
    /// The variant's own name.
    pub fn to_string(&self) -> (res: String)
        ensures
            res@ == item_type_name(*self),
    {
        match self {
            TradeItemType::Ayatan => "Ayatan".to_owned(),
            TradeItemType::Platinum => "Platinum".to_owned(),
            TradeItemType::Credits => "Credits".to_owned(),
            TradeItemType::MainBlueprint => "MainBlueprint".to_owned(),
            TradeItemType::Weapon => "Weapon".to_owned(),
            TradeItemType::Relic => "Relic".to_owned(),
            TradeItemType::Component => "Component".to_owned(),
            TradeItemType::Arcane => "Arcane".to_owned(),
            TradeItemType::Lens => "Lens".to_owned(),
            TradeItemType::Mod => "Mod".to_owned(),
            TradeItemType::Fish => "Fish".to_owned(),
            TradeItemType::FusionCore => "FusionCore".to_owned(),
            TradeItemType::RivenVeiled => "RivenVeiled".to_owned(),
            TradeItemType::RivenUnVeiled => "RivenUnVeiled".to_owned(),
            TradeItemType::Imprint => "Imprint".to_owned(),
            TradeItemType::ItemSet => "Set".to_owned(),
            TradeItemType::Unknown => "Unknown".to_owned(),
        }
    }
}

/// How a trade dialog ended.
#[derive(Clone, Copy, Debug, PartialEq, Eq, Structural)]
pub enum TradeResult {
    Success,
    Failed,
    Cancelled,
    OnTradeAcceptedFailed,
    Unknown,
}

impl TradeResult {
    /// Whether the result is one of the three dialog outcomes (success, failure,
    /// cancellation).
    pub fn was_detected(&self) -> (res: bool)
        ensures
            res == (*self == TradeResult::Success || *self == TradeResult::Failed || *self
                == TradeResult::Cancelled),
    {
        match self {
            TradeResult::Success | TradeResult::Failed | TradeResult::Cancelled => true,
            _ => false,
        }
    }

    /// The variant's name.
    pub fn display(&self) -> (res: &'static str)
        ensures
            res@ == match *self {
                TradeResult::Success => "Success"@,
                TradeResult::Failed => "Failed"@,
                TradeResult::Cancelled => "Cancelled"@,
                TradeResult::OnTradeAcceptedFailed => "OnTradeAcceptedFailed"@,
                TradeResult::Unknown => "Unknown"@,
            },
    {
        match self {
            TradeResult::Success => "Success",
            TradeResult::Failed => "Failed",
            TradeResult::Cancelled => "Cancelled",
            TradeResult::OnTradeAcceptedFailed => "OnTradeAcceptedFailed",
            TradeResult::Unknown => "Unknown",
        }
    }

    /// The metric recorded for the result.
    pub fn metric_name(&self) -> (res: &'static str)
        ensures
            res@ == match *self {
                TradeResult::Success => "trade_accepted"@,
                TradeResult::Failed => "trade_failed"@,
                TradeResult::Cancelled => "trade_cancelled"@,
                TradeResult::OnTradeAcceptedFailed => "trade_accepted_failed"@,
                TradeResult::Unknown => "trade_unknown"@,
            },
    {
        match self {
            TradeResult::Success => "trade_accepted",
            TradeResult::Failed => "trade_failed",
            TradeResult::Cancelled => "trade_cancelled",
            TradeResult::OnTradeAcceptedFailed => "trade_accepted_failed",
            TradeResult::Unknown => "trade_unknown",
        }
    }
}

/// The side of a market order.
#[derive(Clone, Copy, Debug, PartialEq, Eq, Structural)]
pub enum OrderType {
    Buy,
    Sell,
}

/// The part of an account export a line belongs to.
#[derive(Clone, Copy, Debug, PartialEq, Eq, Structural)]
pub enum LogSection {
    Offered,
    Received,
    Items,
}

} // verus!
