//! The search for competing riven auctions: which auctions a riven listing is
//! compared with.
use vstd::prelude::*;
use crate::trade::{strings_view, copy_opt_string};

verus! {

/// A stat a riven filter asks about.
#[derive(Debug)]
pub struct StatFilter {
    pub url_name: String,
    pub positive: bool,
    pub is_required: bool,
}

/// A range with a lower bound and maybe an upper one.
#[derive(Clone, Copy, Debug, PartialEq, Eq, Structural)]
pub struct Bounds {
    pub min: i64,
    pub max: Option<i64>,
}

/// The filter a riven listing sets for its competitors.
#[derive(Debug)]
pub struct RivenFilterSettings {
    pub enabled: Option<bool>,
    pub attributes: Option<Vec<StatFilter>>,
    pub mastery_rank: Option<Bounds>,
    pub re_rolls: Option<Bounds>,
    pub polarity: Option<String>,
    pub similarity: Option<i64>,
}

/// An auction search: always riven auctions of one weapon, bought out directly,
/// from players in game, cheapest first; the rest as the listing's filter asks.
#[derive(Debug)]
pub struct AuctionFilter {
    pub weapon_url: String,
    pub positive_stats: Option<Vec<String>>,
    pub negative_stats: Option<Vec<String>>,
    pub mastery_rank_min: Option<i64>,
    pub mastery_rank_max: Option<i64>,
    pub re_rolls_min: Option<i64>,
    pub re_rolls_max: Option<i64>,
    pub polarity: Option<String>,
    pub similarity: Option<i64>,
}

/// The contents of an auction search.
pub struct AuctionFilterView {
    pub weapon_url: Seq<char>,
    pub positive_stats: Option<Seq<Seq<char>>>,
    pub negative_stats: Option<Seq<Seq<char>>>,
    pub mastery_rank_min: Option<i64>,
    pub mastery_rank_max: Option<i64>,
    pub re_rolls_min: Option<i64>,
    pub re_rolls_max: Option<i64>,
    pub polarity: Option<Seq<char>>,
    pub similarity: Option<i64>,
}

impl View for AuctionFilter {
    type V = AuctionFilterView;

    open spec fn view(&self) -> AuctionFilterView {
        AuctionFilterView {
            weapon_url: self.weapon_url@,
            positive_stats: match self.positive_stats {
                Some(v) => Some(strings_view(v@)),
                None => None,
            },
            negative_stats: match self.negative_stats {
                Some(v) => Some(strings_view(v@)),
                None => None,
            },
            mastery_rank_min: self.mastery_rank_min,
            mastery_rank_max: self.mastery_rank_max,
            re_rolls_min: self.re_rolls_min,
            re_rolls_max: self.re_rolls_max,
            polarity: crate::trade::opt_str_view(self.polarity),
            similarity: self.similarity,
        }
    }
}

/// The names of the required stats of one sign, in order.
pub open spec fn required_stats(stats: Seq<StatFilter>, positive: bool) -> Seq<Seq<char>>
    decreases stats.len(),
{
    if stats.len() == 0 {
        Seq::empty()
    } else {
        let rest = required_stats(stats.drop_last(), positive);
        if stats.last().positive == positive && stats.last().is_required {
            rest.push(stats.last().url_name@)
        } else {
            rest
        }
    }
}

/// The search for a listing: with its filter on, the required positive and
/// negative stats (when there are any of a sign), a lower bound other than 0 and
/// an upper bound for mastery rank and rerolls, the polarity and the similarity.
pub open spec fn filter_spec(weapon_url: Seq<char>, f: RivenFilterSettings) -> AuctionFilterView {
    let on = f.enabled == Some(true);
    let pos = match f.attributes {
        Some(a) => required_stats(a@, true),
        None => Seq::empty(),
    };
    let neg = match f.attributes {
        Some(a) => required_stats(a@, false),
        None => Seq::empty(),
    };
    AuctionFilterView {
        weapon_url,
        positive_stats: if on && pos.len() > 0 { Some(pos) } else { None },
        negative_stats: if on && neg.len() > 0 { Some(neg) } else { None },
        mastery_rank_min: match f.mastery_rank {
            Some(b) => if on && b.min != 0 { Some(b.min) } else { None },
            None => None,
        },
        mastery_rank_max: match f.mastery_rank {
            Some(b) => if on { b.max } else { None },
            None => None,
        },
        re_rolls_min: match f.re_rolls {
            Some(b) => if on && b.min != 0 { Some(b.min) } else { None },
            None => None,
        },
        re_rolls_max: match f.re_rolls {
            Some(b) => if on { b.max } else { None },
            None => None,
        },
        polarity: if on { crate::trade::opt_str_view(f.polarity) } else { None },
        similarity: if on { f.similarity } else { None },
    }
}

fn required_names(stats: &Vec<StatFilter>, positive: bool) -> (res: Vec<String>)
    ensures
        strings_view(res@) == required_stats(stats@, positive),
{
    let mut res: Vec<String> = Vec::new();
    let mut i: usize = 0;
    assert(stats@.subrange(0, 0) =~= Seq::<StatFilter>::empty());
    while i < stats.len()
        invariant
            i <= stats.len(),
            strings_view(res@) == required_stats(stats@.subrange(0, i as int), positive),
        decreases stats.len() - i,
    {
        assert(stats@.subrange(0, i + 1).drop_last() =~= stats@.subrange(0, i as int));
        if stats[i].positive == positive && stats[i].is_required {
            let ghost before = strings_view(res@);
            res.push(stats[i].url_name.clone());
            assert(strings_view(res@) =~= before.push(stats@[i as int].url_name@));
        }
        i += 1;
    }
    assert(stats@.subrange(0, i as int) =~= stats@);
    res
}

/// The auction search for a riven listing (see `filter_spec`).
pub fn get_filter(weapon_url: &str, f: &RivenFilterSettings) -> (res: AuctionFilter)
    ensures
        res@ == filter_spec(weapon_url@, *f),
{
    let on = f.enabled == Some(true);
    let (pos, neg) = match &f.attributes {
        Some(a) => (required_names(a, true), required_names(a, false)),
        None => (Vec::new(), Vec::new()),
    };
    proof {
        if f.attributes is None {
            assert(strings_view(pos@) =~= Seq::<Seq<char>>::empty());
            assert(strings_view(neg@) =~= Seq::<Seq<char>>::empty());
        }
    }
    AuctionFilter {
        weapon_url: weapon_url.to_owned(),
        positive_stats: if on && pos.len() > 0 { Some(pos) } else { None },
        negative_stats: if on && neg.len() > 0 { Some(neg) } else { None },
        mastery_rank_min: match f.mastery_rank {
            Some(b) => if on && b.min != 0 { Some(b.min) } else { None },
            None => None,
        },
        mastery_rank_max: match f.mastery_rank {
            Some(b) => if on { b.max } else { None },
            None => None,
        },
        re_rolls_min: match f.re_rolls {
            Some(b) => if on && b.min != 0 { Some(b.min) } else { None },
            None => None,
        },
        re_rolls_max: match f.re_rolls {
            Some(b) => if on { b.max } else { None },
            None => None,
        },
        polarity: if on { copy_opt_string(&f.polarity) } else { None },
        similarity: if on { f.similarity } else { None },
    }
}

} // verus!
