//! The names and texts a finished trade is announced with: each entry's display
//! name from the table of tradable items, and the variables a notification
//! template is filled with.
use vstd::prelude::*;
use crate::enums::{TradeClassification, TradeItemType, classification_name};
use crate::number::{int_text, i64_text, usize_text};
use crate::text::{chars_of, chars_of_string, concat, string_of};
use crate::trade::{PlayerTrade, PlayerTradeView, TradeItem, TradeItemView, items_view, valid_items_spec, same_string};

verus! {

/// A tradable item's unique name and the name it is shown with.
pub struct TradableName {
    pub unique_name: String,
    pub name: String,
}

/// The contents of a table of tradable names, as (unique name, name) pairs.
pub open spec fn names_view(v: Seq<TradableName>) -> Seq<(Seq<char>, Seq<char>)> {
    v.map_values(|n: TradableName| (n.unique_name@, n.name@))
}

/// The name the first row with this unique name gives, if any.
pub open spec fn name_in(names: Seq<(Seq<char>, Seq<char>)>, unique: Seq<char>) -> Option<Seq<char>>
    decreases names.len(),
{
    if names.len() == 0 {
        None
    } else if names[0].0 == unique {
        Some(names[0].1)
    } else {
        name_in(names.drop_first(), unique)
    }
}

/// An entry's display name: the table's name for its unique name, else its raw text.
pub open spec fn display_name(t: TradeItemView, names: Seq<(Seq<char>, Seq<char>)>) -> Seq<char> {
    match name_in(names, t.unique_name) {
        Some(n) => n,
        None => t.raw,
    }
}

/// One line of an item list: "<name> X<quantity>".
pub open spec fn item_line(t: TradeItemView, names: Seq<(Seq<char>, Seq<char>)>) -> Seq<char> {
    display_name(t, names) + " X"@ + int_text(t.quantity as int)
}

/// Lines joined with a line break between each two.
pub open spec fn join_lines(lines: Seq<Seq<char>>) -> Seq<char>
    decreases lines.len(),
{
    if lines.len() == 0 {
        Seq::empty()
    } else if lines.len() == 1 {
        lines[0]
    } else {
        join_lines(lines.drop_last()) + "\n"@ + lines.last()
    }
}

/// The item list of some entries, one line each.
pub open spec fn item_list(items: Seq<TradeItemView>, names: Seq<(Seq<char>, Seq<char>)>) -> Seq<char> {
    join_lines(items.map_values(|t: TradeItemView| item_line(t, names)))
}

/// The template variables of a trade, in this order: type, partner, number of
/// offered entries, list of valid offered entries, number of received entries,
/// time (as the caller wrote it), list of valid received entries, platinum.
pub open spec fn notify_spec(t: PlayerTradeView, names: Seq<(Seq<char>, Seq<char>)>, time_text: Seq<char>) -> Seq<
    (Seq<char>, Seq<char>),
> {
    seq![
        ("<TR_TYPE>"@, classification_name(t.trade_type)),
        ("<PLAYER_NAME>"@, t.player_name),
        ("<OF_COUNT>"@, int_text(t.offered_items.len() as int)),
        ("<OF_ITEMS>"@, item_list(valid_items_spec(t, TradeClassification::Purchase, Seq::empty()), names)),
        ("<RE_COUNT>"@, int_text(t.received_items.len() as int)),
        ("<TIME>"@, time_text),
        ("<RE_ITEMS>"@, item_list(valid_items_spec(t, TradeClassification::Sale, Seq::empty()), names)),
        ("<TOTAL_PLAT>"@, int_text(t.platinum as int)),
    ]
}

/// The contents of a list of text pairs.
pub open spec fn pairs_view(v: Seq<(String, String)>) -> Seq<(Seq<char>, Seq<char>)> {
    v.map_values(|p: (String, String)| (p.0@, p.1@))
}

impl TradeItem {
    /// The entry's display name (see `display_name`).
    pub fn item_name(&self, names: &Vec<TradableName>) -> (res: String)
        ensures
            res@ == display_name(self@, names_view(names@)),
    {
        let ghost all = names_view(names@);
        assert(all.skip(0) =~= all);
        let mut i: usize = 0;
        while i < names.len()
            invariant
                i <= names.len(),
                all == names_view(names@),
                all.len() == names@.len(),
                name_in(all, self@.unique_name) == name_in(all.skip(i as int), self@.unique_name),
            decreases names.len() - i,
        {
            proof {
                assert(all.skip(i as int).drop_first() =~= all.skip(i + 1));
                assert(all.skip(i as int)[0] == all[i as int]);
            }
            if same_string(&names[i].unique_name, &self.unique_name) {
                return names[i].name.clone();
            }
            i = i + 1;
        }
        proof {
            assert(all.skip(i as int).len() == 0);
        }
        self.raw.clone()
    }
}

/// The item list of `items` (see `item_list`).
pub fn item_list_text(items: &Vec<TradeItem>, names: &Vec<TradableName>) -> (res: String)
    ensures
        res@ == item_list(items_view(items@), names_view(names@)),
{
    let ghost lines = items_view(items@).map_values(|t: TradeItemView| item_line(t, names_view(names@)));
    let mut out: Vec<char> = Vec::new();
    let mut i: usize = 0;
    while i < items.len()
        invariant
            i <= items.len(),
            lines == items_view(items@).map_values(|t: TradeItemView| item_line(t, names_view(names@))),
            lines.len() == items@.len(),
            out@ == join_lines(lines.take(i as int)),
        decreases items.len() - i,
    {
        let name = items[i].item_name(names);
        let mut line = chars_of_string(&name);
        line = concat(&line, &chars_of(" X"));
        line = concat(&line, &i64_text(items[i].quantity));
        proof {
            assert(line@ == lines[i as int]);
            assert(lines.take(i + 1).drop_last() =~= lines.take(i as int));
            assert(lines.take(i + 1).last() == lines[i as int]);
        }
        if i == 0 {
            out = line;
            proof {
                assert(lines.take(1).len() == 1);
                assert(lines.take(1)[0] == lines[0]);
            }
        } else {
            out = concat(&out, &chars_of("\n"));
            out = concat(&out, &line);
        }
        i = i + 1;
    }
    proof {
        assert(lines.take(items.len() as int) =~= lines);
    }
    string_of(&out)
}

impl PlayerTrade {
    /// The variables a notification about this trade is filled with (see
    /// `notify_spec`); `time_text` is the trade time as the user's clock shows it.
    pub fn get_notify_variables(&self, names: &Vec<TradableName>, time_text: &str) -> (res: Vec<(String, String)>)
        ensures
            pairs_view(res@) == notify_spec(self@, names_view(names@), time_text@),
    {
        let none1: Vec<TradeItemType> = Vec::new();
        let none2: Vec<TradeItemType> = Vec::new();
        proof {
            assert(none1@ =~= Seq::<TradeItemType>::empty());
            assert(none2@ =~= Seq::<TradeItemType>::empty());
        }
        let offered = self.get_valid_items(TradeClassification::Purchase, none1);
        let received = self.get_valid_items(TradeClassification::Sale, none2);
        let mut out: Vec<(String, String)> = Vec::new();
        out.push(("<TR_TYPE>".to_owned(), self.trade_type.to_string()));
        out.push(("<PLAYER_NAME>".to_owned(), self.player_name.clone()));
        out.push(("<OF_COUNT>".to_owned(), string_of(&usize_text(self.offered_items.len()))));
        out.push(("<OF_ITEMS>".to_owned(), item_list_text(&offered, names)));
        out.push(("<RE_COUNT>".to_owned(), string_of(&usize_text(self.received_items.len()))));
        out.push(("<TIME>".to_owned(), time_text.to_owned()));
        out.push(("<RE_ITEMS>".to_owned(), item_list_text(&received, names)));
        out.push(("<TOTAL_PLAT>".to_owned(), string_of(&i64_text(self.platinum))));
        proof {
            assert(pairs_view(out@) =~= notify_spec(self@, names_view(names@), time_text@));
        }
        out
    }
}

} // verus!
