//! A list of operation tags, each recorded once, that the trade and market
//! workflows use to remember what happened.
use vstd::prelude::*;
use crate::text::{chars_of, chars_of_string, string_of, slice, trim, trim_seq, ends_with_seq, starts_with_seq};
use crate::trade::{strings_view, same_string, copy_strings};

verus! {

/// Operation tags in the order they were first recorded.
#[derive(Debug)]
pub struct OperationSet {
    pub operations: Vec<String>,
}

/// The tags of `ops` after recording `op` (nothing changes when it is already there).
pub open spec fn add_spec(ops: Seq<Seq<char>>, op: Seq<char>) -> Seq<Seq<char>> {
    if ops.contains(op) {
        ops
    } else {
        ops.push(op)
    }
}

/// The tags of `ops` without every copy of `op`.
pub open spec fn remove_spec(ops: Seq<Seq<char>>, op: Seq<char>) -> Seq<Seq<char>>
    decreases ops.len(),
{
    if ops.len() == 0 {
        Seq::empty()
    } else if ops.last() == op {
        remove_spec(ops.drop_last(), op)
    } else {
        remove_spec(ops.drop_last(), op).push(ops.last())
    }
}

/// Recording each tag of `more` in turn.
pub open spec fn merge_spec(ops: Seq<Seq<char>>, more: Seq<Seq<char>>) -> Seq<Seq<char>>
    decreases more.len(),
{
    if more.len() == 0 {
        ops
    } else {
        add_spec(merge_spec(ops, more.drop_last()), more.last())
    }
}

/// The value recorded as "key: value": the trimmed text after the colon of the
/// first tag that begins with `key` followed by `:`.
pub open spec fn value_after_spec(ops: Seq<Seq<char>>, key: Seq<char>) -> Option<Seq<char>>
    decreases ops.len(),
{
    if ops.len() == 0 {
        None
    } else if starts_with_seq(ops[0], key + seq![':']) {
        Some(trim_seq(ops[0].subrange(key.len() + 1int, ops[0].len() as int)))
    } else {
        value_after_spec(ops.drop_first(), key)
    }
}

impl View for OperationSet {
    type V = Seq<Seq<char>>;

    open spec fn view(&self) -> Seq<Seq<char>> {
        strings_view(self.operations@)
    }
}

impl OperationSet {
    /// No tags.
    pub fn new() -> (res: OperationSet)
        ensures
            res@ == Seq::<Seq<char>>::empty(),
    {
        let r = OperationSet { operations: Vec::new() };
        assert(r@ =~= Seq::<Seq<char>>::empty());
        r
    }

    /// The tags of `ops`, each recorded once in order.
    pub fn from_list(ops: &Vec<String>) -> (res: OperationSet)
        ensures
            res@ == merge_spec(Seq::empty(), strings_view(ops@)),
    {
        let mut r = OperationSet::new();
        r.merge_list(ops);
        r
    }

    /// A copy with the same tags.
    pub fn duplicate(&self) -> (res: OperationSet)
        ensures
            res@ == self@,
    {
        OperationSet { operations: copy_strings(&self.operations) }
    }

    /// Whether `op` is recorded.
    pub fn has(&self, op: &str) -> (res: bool)
        ensures
            res == self@.contains(op@),
    {
        let o = op.to_owned();
        crate::trade::string_listed(&self.operations, &o)
    }

    /// Whether any of `ops` is recorded.
    pub fn any(&self, ops: &Vec<String>) -> (res: bool)
        ensures
            res == exists|i: int| 0 <= i < ops@.len() && self@.contains(#[trigger] ops@[i]@),
    {
        let mut i: usize = 0;
        while i < ops.len()
            invariant
                i <= ops.len(),
                forall|k: int| 0 <= k < i ==> !self@.contains(#[trigger] ops@[k]@),
            decreases ops.len() - i,
        {
            if crate::trade::string_listed(&self.operations, &ops[i]) {
                return true;
            }
            i += 1;
        }
        false
    }

    /// Records `op` unless it is already recorded.
    pub fn add(&mut self, op: &str)
        ensures
            final(self)@ == add_spec(old(self)@, op@),
    {
        let o = op.to_owned();
        self.add_string(o);
    }

    /// Records `op` unless it is already recorded.
    pub fn add_string(&mut self, op: String)
        ensures
            final(self)@ == add_spec(old(self)@, op@),
    {
        if !crate::trade::string_listed(&self.operations, &op) {
            let ghost before = self.operations@;
            let ghost o = op@;
            self.operations.push(op);
            assert(strings_view(self.operations@) =~= strings_view(before).push(o));
        }
    }

    /// Records each of `more` in turn.
    pub fn merge_list(&mut self, more: &Vec<String>)
        ensures
            final(self)@ == merge_spec(old(self)@, strings_view(more@)),
    {
        let ghost start = self@;
        let mut i: usize = 0;
        while i < more.len()
            invariant
                i <= more.len(),
                self@ == merge_spec(start, strings_view(more@).take(i as int)),
            decreases more.len() - i,
        {
            proof {
                let t = strings_view(more@).take(i + 1);
                assert(t.drop_last() =~= strings_view(more@).take(i as int));
                assert(t.last() == more@[i as int]@);
            }
            self.add_string(more[i].clone());
            i += 1;
        }
        assert(strings_view(more@).take(more.len() as int) =~= strings_view(more@));
    }

    /// Records each tag of `other` in turn.
    pub fn merge(&mut self, other: &OperationSet)
        ensures
            final(self)@ == merge_spec(old(self)@, other@),
    {
        self.merge_list(&other.operations);
    }

    /// Removes every copy of `op`.
    pub fn remove(&mut self, op: &str)
        ensures
            final(self)@ == remove_spec(old(self)@, op@),
    {
        let o = op.to_owned();
        let ghost v = self@;
        let mut out: Vec<String> = Vec::new();
        let mut i: usize = 0;
        while i < self.operations.len()
            invariant
                i <= self.operations.len(),
                v == strings_view(self.operations@),
                strings_view(out@) == remove_spec(v.take(i as int), op@),
                o@ == op@,
            decreases self.operations.len() - i,
        {
            proof {
                let t = v.take(i + 1);
                assert(t.drop_last() =~= v.take(i as int));
                assert(t.last() == self.operations@[i as int]@);
            }
            if !same_string(&self.operations[i], &o) {
                let c = self.operations[i].clone();
                let ghost before = out@;
                out.push(c);
                assert(strings_view(out@) =~= strings_view(before).push(c@));
            }
            i += 1;
        }
        assert(v.take(i as int) =~= v);
        self.operations = out;
    }

    /// Whether some tag ends with `suffix`.
    pub fn ends_with(&self, suffix: &str) -> (res: bool)
        ensures
            res == exists|i: int| 0 <= i < self@.len() && ends_with_seq(#[trigger] self@[i], suffix@),
    {
        let sfx = chars_of(suffix);
        let mut i: usize = 0;
        while i < self.operations.len()
            invariant
                i <= self.operations.len(),
                sfx@ == suffix@,
                forall|k: int| 0 <= k < i ==> !ends_with_seq(#[trigger] self@[k], suffix@),
            decreases self.operations.len() - i,
        {
            let c = chars_of_string(&self.operations[i]);
            assert(self@[i as int] == c@);
            if crate::text::ends_with(&c, &sfx) {
                return true;
            }
            i += 1;
        }
        false
    }

    /// The value recorded as "key: value" (see `value_after_spec`).
    pub fn get_value_after(&self, key: &str) -> (res: Option<String>)
        ensures
            match res {
                Some(v) => value_after_spec(self@, key@) == Some(v@),
                None => value_after_spec(self@, key@) is None,
            },
    {
        let k = chars_of(key);
        let mut colon: Vec<char> = Vec::new();
        colon.push(':');
        let prefix = crate::text::concat(&k, &colon);
        assert(colon@ =~= seq![':']);
        assert(self@.subrange(0, self@.len() as int) =~= self@);
        let mut i: usize = 0;
        while i < self.operations.len()
            invariant
                i <= self.operations.len(),
                prefix@ == key@ + seq![':'],
                k@ == key@,
                value_after_spec(self@, key@) == value_after_spec(
                    self@.subrange(i as int, self@.len() as int),
                    key@,
                ),
            decreases self.operations.len() - i,
        {
            let c = chars_of_string(&self.operations[i]);
            let ghost rest = self@.subrange(i as int, self@.len() as int);
            assert(rest[0] == c@);
            assert(rest.drop_first() =~= self@.subrange(i + 1, self@.len() as int));
            if crate::text::starts_with(&c, &prefix) {
                let tail = slice(&c, k.len() + 1, c.len());
                let t = trim(&tail);
                return Some(string_of(&t));
            }
            i += 1;
        }
        None
    }
}

/// Recording a tag makes it present, and recording it again changes nothing.
pub proof fn lemma_add_records_once(ops: Seq<Seq<char>>, op: Seq<char>)
    ensures
        add_spec(ops, op).contains(op),
        add_spec(add_spec(ops, op), op) == add_spec(ops, op),
        forall|t: Seq<char>| ops.contains(t) ==> add_spec(ops, op).contains(t),
{
    if !ops.contains(op) {
        assert(ops.push(op)[ops.len() as int] == op);
        assert forall|t: Seq<char>| ops.contains(t) implies ops.push(op).contains(t) by {
            let i = choose|i: int| 0 <= i < ops.len() && ops[i] == t;
            assert(ops.push(op)[i] == t);
        }
    }
}

/// After removing a tag it is absent, and the other tags stay.
pub proof fn lemma_remove_drops_all(ops: Seq<Seq<char>>, op: Seq<char>)
    ensures
        !remove_spec(ops, op).contains(op),
        forall|t: Seq<char>| t != op && ops.contains(t) ==> remove_spec(ops, op).contains(t),
    decreases ops.len(),
{
    if ops.len() > 0 {
        lemma_remove_drops_all(ops.drop_last(), op);
        let r = remove_spec(ops.drop_last(), op);
        if ops.last() != op {
            assert(!r.push(ops.last()).contains(op)) by {
                if r.push(ops.last()).contains(op) {
                    let i = choose|i: int| 0 <= i < r.push(ops.last()).len() && r.push(ops.last())[i] == op;
                    if i < r.len() {
                        assert(r[i] == op);
                    }
                }
            }
        }
        assert forall|t: Seq<char>| t != op && ops.contains(t) implies remove_spec(ops, op).contains(t) by {
            let i = choose|i: int| 0 <= i < ops.len() && ops[i] == t;
            if i < ops.len() - 1 {
                assert(ops.drop_last()[i] == t);
                assert(ops.drop_last().contains(t));
                if ops.last() != op {
                    let j = choose|j: int| 0 <= j < r.len() && r[j] == t;
                    assert(r.push(ops.last())[j] == t);
                }
            } else {
                assert(ops.last() == t);
                assert(r.push(ops.last())[r.len() as int] == t);
            }
        }
    }
}

} // verus!
