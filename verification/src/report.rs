//! Naming the items of a trade that another tool reports: the names that map
//! to a fixed unique name before any catalogue is asked, the unveiled-riven
//! naming, and taking over what a catalogue lookup found.
use vstd::prelude::*;
use crate::http::{utf8_len, char_utf8_len};
use crate::text::{
    chars_of, chars_of_string, concat, contains, contains_seq, find, find_seq, lemma_find_seq, replace,
    replace_seq, slice, starts_with, starts_with_seq, string_of, matches_at, ends_with, ends_with_seq,
    rfind_char_seq,
};
use crate::number::{parse_i64, parse_i64_spec};

verus! {

/// An item of a reported trade: its name as reported, quantity, the unique name
/// it resolves to, and its rank when one is known.
#[derive(Debug)]
pub struct ReportedItem {
    pub name: String,
    pub quantity: i64,
    pub unique_name: String,
    pub rank: Option<i64>,
}

/// The names that need no catalogue: "plat" is platinum; "Imprint of X" is the
/// imprint of X; a "Legendary Core" is the legendary fusion core; an "Ancient
/// Core" has its name replaced by the ancient core's. The pair is the new name
/// and the new unique name (`None`: left as it was); `None` for any other name.
pub open spec fn name_rule_spec(name: Seq<char>) -> Option<(Option<Seq<char>>, Option<Seq<char>>)> {
    if name == "plat"@ {
        Some((Some("Platinum"@), Some("/QF_Special/Platinum"@)))
    } else if starts_with_seq(name, "Imprint of"@) {
        Some((None, Some("/QF_Special/Imprint/"@ + replace_seq(name, "Imprint of "@, Seq::empty()))))
    } else if starts_with_seq(name, "Legendary Core"@) {
        Some((None, Some("/QF_Special/Legendary Fusion Core"@)))
    } else if starts_with_seq(name, "Ancient Core"@) {
        Some((Some("/QF_Special/Legendary Ancient Core"@), None))
    } else {
        None
    }
}

fn lit(s: &str) -> (res: Vec<char>)
    ensures
        res@ == s@,
{
    chars_of(s)
}

/// The fixed naming of a reported name (see `name_rule_spec`).
pub fn name_rule(name: &str) -> (res: Option<(Option<String>, Option<String>)>)
    ensures
        match name_rule_spec(name@) {
            Some((n, u)) => res matches Some(r) && crate::trade::opt_str_view(r.0) == n
                && crate::trade::opt_str_view(r.1) == u,
            None => res is None,
        },
{
    let n = chars_of(name);
    if crate::enums::seq_eq(&n, "plat") {
        return Some((Some("Platinum".to_owned()), Some("/QF_Special/Platinum".to_owned())));
    }
    if starts_with(&n, &lit("Imprint of")) {
        let pat = lit("Imprint of ");
        proof {
            reveal_strlit("Imprint of ");
        }
        let empty: Vec<char> = Vec::new();
        assert(empty@ =~= Seq::<char>::empty());
        let rest = replace(&n, &pat, &empty);
        let u = concat(&lit("/QF_Special/Imprint/"), &rest);
        return Some((None, Some(string_of(&u))));
    }
    if starts_with(&n, &lit("Legendary Core")) {
        return Some((None, Some("/QF_Special/Legendary Fusion Core".to_owned())));
    }
    if starts_with(&n, &lit("Ancient Core")) {
        return Some((Some("/QF_Special/Legendary Ancient Core".to_owned()), None));
    }
    None
}

/// The position of the first "(" in a name that holds both "(" and ")".
pub open spec fn paren_at(name: Seq<char>) -> Option<int> {
    if contains_seq(name, "("@) && contains_seq(name, ")"@) {
        find_seq(name, "("@)
    } else {
        None
    }
}

/// A name with a parenthesised part can be split: the "(" is not first and the
/// character before it is one byte long.
pub open spec fn paren_split_ok(name: Seq<char>) -> bool {
    paren_at(name) matches Some(i) ==> i >= 1 && (name[i - 1] as u32) < 0x80
}

/// The parenthesised part of a name: from the first "(" to the end.
pub open spec fn rank_part(name: Seq<char>, i: int) -> Seq<char> {
    name.subrange(i, name.len() as int)
}

/// The name before the parenthesised part, without the character before "(".
pub open spec fn name_part(name: Seq<char>, i: int) -> Seq<char> {
    name.subrange(0, i - 1)
}

/// The name describes an unveiled riven: its parenthesised part is longer than
/// three bytes, the name holds "(RIVEN RANK " and not " Riven Mod".
pub open spec fn is_unveiled_riven(name: Seq<char>) -> bool {
    paren_at(name) matches Some(i) && utf8_len(rank_part(name, i)) > 3 && contains_seq(name, "(RIVEN RANK "@)
        && !contains_seq(name, " Riven Mod"@)
}

/// An unveiled riven is named after its weapon (the name before the first
/// space) and its attributes (the rest): "W Riven Mod (A)", unique name
/// "/QF_Special/Riven/W/A". `None` for a name that is no unveiled riven.
pub open spec fn riven_rule_spec(name: Seq<char>) -> Option<(Seq<char>, Seq<char>)> {
    if is_unveiled_riven(name) {
        let np = name_part(name, paren_at(name)->0);
        let k = find_seq(np, " "@)->0;
        let weapon = np.subrange(0, k);
        let att = np.subrange(k + 1, np.len() as int);
        Some((weapon + " Riven Mod ("@ + att + ")"@, "/QF_Special/Riven/"@ + weapon + "/"@ + att))
    } else {
        None
    }
}

proof fn lemma_utf8_prefix(s: Seq<char>, i: int)
    requires
        0 <= i <= s.len(),
    ensures
        utf8_len(s.take(i)) <= utf8_len(s),
    decreases s.len() - i,
{
    if i < s.len() {
        lemma_utf8_prefix(s, i + 1);
        assert(s.take(i + 1).drop_last() =~= s.take(i));
    } else {
        assert(s.take(i) =~= s);
    }
}

/// Whether a text takes more than `n` bytes in UTF-8.
fn longer_than(v: &Vec<char>, n: u8) -> (res: bool)
    ensures
        res == (utf8_len(v@) > n),
{
    let mut sum: u64 = 0;
    let mut i: usize = 0;
    while i < v.len()
        invariant
            i <= v.len(),
            sum == utf8_len(v@.take(i as int)),
            sum <= n,
        decreases v.len() - i,
    {
        assert(v@.take(i + 1).drop_last() =~= v@.take(i as int));
        let c = v[i];
        let w: u64 = if (c as u32) < 0x80 {
            1
        } else if (c as u32) < 0x800 {
            2
        } else if (c as u32) < 0x10000 {
            3
        } else {
            4
        };
        assert(w == char_utf8_len(c));
        if sum + w > n as u64 {
            proof {
                lemma_utf8_prefix(v@, i + 1);
            }
            return true;
        }
        sum = sum + w;
        i = i + 1;
    }
    assert(v@.take(i as int) =~= v@);
    false
}

/// The unveiled-riven naming of a reported name (see `riven_rule_spec`). The
/// name must split cleanly: a single-byte
/// character before the first "(", and a space in an unveiled riven's name.
pub fn riven_rule(name: &str) -> (res: Option<(String, String)>)
    requires
        paren_split_ok(name@),
        is_unveiled_riven(name@) ==> contains_seq(name_part(name@, paren_at(name@)->0), " "@),
    ensures
        match riven_rule_spec(name@) {
            Some((n, u)) => res matches Some(r) && r.0@ == n && r.1@ == u,
            None => res is None,
        },
{
    let n = chars_of(name);
    let open = lit("(");
    if !(contains(&n, &open) && contains(&n, &lit(")"))) {
        return None;
    }
    let i = match find(&n, &open) {
        Some(i) => i,
        None => return None,
    };
    proof {
        lemma_find_seq(n@, open@);
    }
    let rp = slice(&n, i, n.len());
    if !longer_than(&rp, 3) {
        return None;
    }
    if !contains(&n, &lit("(RIVEN RANK ")) || contains(&n, &lit(" Riven Mod")) {
        return None;
    }
    let np = slice(&n, 0, i - 1);
    let space = lit(" ");
    proof {
        lemma_find_seq(np@, space@);
    }
    let k = match find(&np, &space) {
        Some(k) => k,
        None => return None,
    };
    proof {
        lemma_find_seq(np@, space@);
        reveal_strlit(" ");
        assert(matches_at(np@, space@, k as int));
    }
    let weapon = slice(&np, 0, k);
    let att = slice(&np, k + 1, np.len());
    let a = concat(&weapon, &lit(" Riven Mod ("));
    let b = concat(&a, &att);
    let new_name = concat(&b, &lit(")"));
    let c = concat(&lit("/QF_Special/Riven/"), &weapon);
    let d = concat(&c, &lit("/"));
    let unique = concat(&d, &att);
    Some((string_of(&new_name), string_of(&unique)))
}

/// The parenthesised part with its brackets removed.
pub open spec fn unbracketed(rank_part: Seq<char>) -> Seq<char> {
    replace_seq(replace_seq(rank_part, seq!['('], Seq::empty()), seq![')'], Seq::empty())
}

/// The first of the space-separated pieces of `s` that reads as an `i64`.
pub open spec fn first_number(s: Seq<char>) -> Option<i64>
    decreases s.len(),
{
    match find_seq(s, seq![' ']) {
        None => parse_i64_spec(s),
        Some(k) => if k < 0 || k >= s.len() {
            None
        } else {
            match parse_i64_spec(s.subrange(0, k)) {
                Some(v) => Some(v),
                None => first_number(s.subrange(k + 1, s.len() as int)),
            }
        },
    }
}

fn unbracket(rank_part: &Vec<char>) -> (res: Vec<char>)
    ensures
        res@ == unbracketed(rank_part@),
{
    let mut open: Vec<char> = Vec::new();
    open.push('(');
    let mut close: Vec<char> = Vec::new();
    close.push(')');
    let empty: Vec<char> = Vec::new();
    assert(open@ =~= seq!['(']);
    assert(close@ =~= seq![')']);
    assert(empty@ =~= Seq::<char>::empty());
    let a = replace(rank_part, &open, &empty);
    replace(&a, &close, &empty)
}

/// The rank in a mod's parenthesised part ("(RANK 3)" gives 3): the first
/// space-separated piece, brackets removed, that reads as a number.
pub fn mod_rank(rank_part: &str) -> (res: Option<i64>)
    ensures
        res == first_number(unbracketed(rank_part@)),
{
    let c = unbracket(&chars_of(rank_part));
    let mut space: Vec<char> = Vec::new();
    space.push(' ');
    assert(space@ =~= seq![' ']);
    let mut start: usize = 0;
    assert(c@.subrange(0, c@.len() as int) =~= c@);
    loop
        invariant
            start <= c.len(),
            space@ == seq![' '],
            c@ == unbracketed(rank_part@),
            first_number(c@) == first_number(c@.subrange(start as int, c@.len() as int)),
        decreases c.len() - start,
    {
        let rest = slice(&c, start, c.len());
        proof {
            lemma_find_seq(rest@, space@);
        }
        match find(&rest, &space) {
            None => {
                return parse_i64(&rest);
            },
            Some(k) => {
                assert(matches_at(rest@, space@, k as int));
                let piece = slice(&rest, 0, k);
                match parse_i64(&piece) {
                    Some(v) => {
                        return Some(v);
                    },
                    None => {},
                }
                proof {
                    assert(rest@.subrange(k + 1, rest@.len() as int) =~= c@.subrange(
                        start + k + 1,
                        c@.len() as int,
                    ));
                }
                start = start + k + 1;
            },
        }
    }
}

/// A fish's size letter, read as a rank: when the brackets-removed part is a
/// single byte, that character's code.
pub open spec fn fish_size_spec(rank_part: Seq<char>) -> Option<i64> {
    let size = unbracketed(rank_part);
    if size.len() == 1 && (size[0] as u32) < 0x80 {
        Some((size[0] as u32) as i64)
    } else {
        None
    }
}

/// A fish's size letter as a rank (see `fish_size_spec`).
pub fn fish_size(rank_part: &str) -> (res: Option<i64>)
    ensures
        res == fish_size_spec(rank_part@),
{
    let size = unbracket(&chars_of(rank_part));
    if size.len() == 1 && (size[0] as u32) < 0x80 {
        Some(size[0] as u32 as i64)
    } else {
        None
    }
}

/// An arcane's name as reported: it holds a character outside ASCII or ends in
/// "???".
pub open spec fn looks_arcane(name: Seq<char>) -> bool {
    (exists|i: int| 0 <= i < name.len() && (name[i] as u32) >= 0x80) || ends_with_seq(name, "???"@)
}

/// The name an arcane is looked up by: the reported name up to its last space
/// (empty without a space); `None` for a name that does not look like an arcane.
pub open spec fn arcane_key_spec(name: Seq<char>) -> Option<Seq<char>> {
    if looks_arcane(name) {
        Some(
            match rfind_char_seq(name, ' ') {
                Some(i) => name.subrange(0, i),
                None => Seq::empty(),
            },
        )
    } else {
        None
    }
}

proof fn lemma_rfind_char(s: Seq<char>, c: char)
    ensures
        rfind_char_seq(s, c) matches Some(i) ==> 0 <= i < s.len() && s[i] == c && forall|j: int|
            i < j < s.len() ==> s[j] != c,
        rfind_char_seq(s, c) is None ==> forall|j: int| 0 <= j < s.len() ==> s[j] != c,
    decreases s.len(),
{
    if s.len() > 0 {
        let d = s.drop_last();
        lemma_rfind_char(d, c);
        if s.last() != c {
            assert forall|j: int| 0 <= j < d.len() implies d[j] == s[j] by {}
            if rfind_char_seq(d, c) is None {
                assert forall|j: int| 0 <= j < s.len() implies s[j] != c by {
                    if j < d.len() {
                        assert(d[j] != c);
                    }
                }
            } else {
                let i = rfind_char_seq(d, c)->0;
                assert(s[i] == d[i]);
                assert forall|j: int| i < j < s.len() implies s[j] != c by {
                    if j < d.len() {
                        assert(d[j] != c);
                    }
                }
            }
        }
    }
}

/// The name an arcane is looked up by (see `arcane_key_spec`).
pub fn arcane_key(name: &str) -> (res: Option<String>)
    ensures
        match arcane_key_spec(name@) {
            Some(k) => res matches Some(r) && r@ == k,
            None => res is None,
        },
{
    let n = chars_of(name);
    let mut wide = false;
    let mut i: usize = 0;
    while i < n.len()
        invariant
            i <= n.len(),
            wide == exists|j: int| 0 <= j < i && (n@[j] as u32) >= 0x80,
        decreases n.len() - i,
    {
        if (n[i] as u32) >= 0x80 {
            wide = true;
        }
        i = i + 1;
    }
    if !(wide || ends_with(&n, &lit("???"))) {
        return None;
    }
    let mut k: usize = n.len();
    while k > 0
        invariant
            k <= n.len(),
            n@ == name@,
            looks_arcane(name@),
            forall|j: int| k <= j < n.len() ==> n@[j] != ' ',
        decreases k,
    {
        if n[k - 1] == ' ' {
            proof {
                lemma_rfind_char(n@, ' ');
                let r = rfind_char_seq(n@, ' ');
                if r is None {
                    assert(n@[k - 1] == ' ');
                } else {
                    let i = r->0;
                    if i < k - 1 {
                        assert(n@[k - 1] != ' ');
                    }
                    if i > k - 1 {
                        assert(n@[i] != ' ');
                    }
                }
            }
            return Some(string_of(&slice(&n, 0, k - 1)));
        }
        k = k - 1;
    }
    proof {
        lemma_rfind_char(n@, ' ');
        if rfind_char_seq(n@, ' ') is Some {
            let i = rfind_char_seq(n@, ' ')->0;
            assert(n@[i] != ' ');
        }
    }
    Some(String::new())
}

impl ReportedItem {
    /// Takes over what a catalogue lookup found for the item: its name and
    /// unique name, and says whether anything was found; with nothing found the
    /// item is unchanged.
    pub fn apply_lookup(&mut self, found: Option<(String, String)>) -> (res: bool)
        ensures
            res == (found is Some),
            final(self).quantity == old(self).quantity,
            final(self).rank == old(self).rank,
            match found {
                Some((n, u)) => final(self).name@ == n@ && final(self).unique_name@ == u@,
                None => final(self).name@ == old(self).name@ && final(self).unique_name@ == old(self).unique_name@,
            },
    {
        match found {
            Some((n, u)) => {
                self.name = n;
                self.unique_name = u;
                true
            },
            None => false,
        }
    }

    /// Applies the fixed naming (see `name_rule_spec`): a rule's new name and
    /// unique name replace the item's; says whether a rule applied.
    pub fn apply_name_rule(&mut self) -> (res: bool)
        ensures
            res == (name_rule_spec(old(self).name@) is Some),
            final(self).quantity == old(self).quantity,
            final(self).rank == old(self).rank,
            match name_rule_spec(old(self).name@) {
                Some((n, u)) => {
                    &&& final(self).name@ == (match n { Some(x) => x, None => old(self).name@ })
                    &&& final(self).unique_name@ == (match u { Some(x) => x, None => old(self).unique_name@ })
                },
                None => final(self).name@ == old(self).name@ && final(self).unique_name@ == old(self).unique_name@,
            },
    {
        match name_rule(self.name.as_str()) {
            Some((n, u)) => {
                if let Some(x) = n {
                    self.name = x;
                }
                if let Some(x) = u {
                    self.unique_name = x;
                }
                true
            },
            None => false,
        }
    }
}

} // verus!
