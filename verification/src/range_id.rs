//! Identifiers of paint ranges, written as `"<name>:(<proprietor>)"`.

use vstd::prelude::*;
use vstd::string::*;

use crate::text::{chars_of, concat2};

verus! {

/// The position of the first `c` in `s` at or after position `from`.
pub open spec fn first_char_from(s: Seq<char>, c: char, from: int) -> Option<int>
    decreases s.len() - from,
{
    if from < 0 || from >= s.len() {
        None
    } else if s[from] == c {
        Some(from)
    } else {
        first_char_from(s, c, from + 1)
    }
}

/// Where an identifier written from position `start` of `s` has its `':'` and its `')'`:
/// a non-empty name free of `':'` from `start`, then `":("`, then a non-empty proprietor free
/// of `')'`, then `')'`.
pub open spec fn match_at(s: Seq<char>, start: int) -> Option<(int, int)> {
    if 0 <= start < s.len() && s[start] != ':' {
        match first_char_from(s, ':', start) {
            Some(colon) => if colon + 1 < s.len() && s[colon + 1] == '(' {
                match first_char_from(s, ')', colon + 2) {
                    Some(close) => if close > colon + 2 {
                        Some((colon, close))
                    } else {
                        None
                    },
                    None => None,
                }
            } else {
                None
            },
            None => None,
        }
    } else {
        None
    }
}

/// The leftmost identifier written in `s` at or after position `start`, as its start, its
/// `':'` and its `')'`.
pub open spec fn leftmost_match(s: Seq<char>, start: int) -> Option<(int, int, int)>
    decreases s.len() - start,
{
    if start < 0 || start >= s.len() {
        None
    } else {
        match match_at(s, start) {
            Some((colon, close)) => Some((start, colon, close)),
            None => leftmost_match(s, start + 1),
        }
    }
}

/// The name and the proprietor that `s` holds, from its leftmost identifier.
pub open spec fn spec_parse_range_id(s: Seq<char>) -> Option<(Seq<char>, Seq<char>)> {
    match leftmost_match(s, 0) {
        Some((start, colon, close)) => Some(
            (s.subrange(start, colon), s.subrange(colon + 2, close)),
        ),
        None => None,
    }
}

/// The written form of an identifier.
pub open spec fn spec_display(name: Seq<char>, proprietor: Seq<char>) -> Seq<char> {
    name + ":("@ + proprietor + ")"@
}

/// A range of paints is identified by its name and its proprietor.
#[derive(Debug, PartialOrd, Ord, Clone)]
pub struct PaintRangeId {
    pub proprietor: String,
    pub name: String,
}

impl PartialEq for PaintRangeId {
    fn eq(&self, other: &Self) -> (r: bool) {
        self.proprietor == other.proprietor && self.name == other.name
    }
}

impl vstd::std_specs::cmp::PartialEqSpecImpl for PaintRangeId {
    open spec fn obeys_eq_spec() -> bool {
        true
    }

    open spec fn eq_spec(&self, other: &Self) -> bool {
        self.proprietor@ == other.proprietor@ && self.name@ == other.name@
    }
}

impl Eq for PaintRangeId {
}

impl Default for PaintRangeId {
    fn default() -> (r: Self)
        ensures
            r.proprietor@ == Seq::<char>::empty(),
            r.name@ == Seq::<char>::empty(),
    {
        PaintRangeId { proprietor: String::new(), name: String::new() }
    }
}

/// Finds the first `c` in `chars` at or after position `from`.
fn find_char(chars: &Vec<char>, c: char, from: usize) -> (r: Option<usize>)
    ensures
        match r {
            Some(i) => first_char_from(chars@, c, from as int) == Some(i as int) && from <= i
                < chars@.len() && chars@[i as int] == c,
            None => first_char_from(chars@, c, from as int) is None,
        },
{
    let n = chars.len();
    let mut i = from;
    while i < n
        invariant
            n == chars@.len(),
            from <= i,
            first_char_from(chars@, c, from as int) == first_char_from(chars@, c, i as int),
        decreases n - i,
    {
        if chars[i] == c {
            return Some(i);
        }
        i += 1;
    }
    None
}

/// The identifier written from `start`, if one is.
fn match_at_exec(chars: &Vec<char>, start: usize) -> (r: Option<(usize, usize)>)
    requires
        start < chars@.len(),
    ensures
        match r {
            Some((colon, close)) => match_at(chars@, start as int) == Some(
                (colon as int, close as int),
            ) && start < colon && colon + 2 < close < chars@.len(),
            None => match_at(chars@, start as int) is None,
        },
{
    let n = chars.len();
    if chars[start] == ':' {
        return None;
    }
    match find_char(chars, ':', start) {
        Some(colon) => {
            if colon + 1 < n && chars[colon + 1] == '(' {
                match find_char(chars, ')', colon + 2) {
                    Some(close) => {
                        if close > colon + 2 {
                            Some((colon, close))
                        } else {
                            None
                        }
                    },
                    None => None,
                }
            } else {
                None
            }
        },
        None => None,
    }
}

impl PaintRangeId {
    /// Reads the identifier written in `s` as `"<name>:(<proprietor>)"`; the first such
    /// form found from the left is taken, and `s` is handed back when there is none.
    pub fn from_str(s: &str) -> (r: Result<PaintRangeId, String>)
        ensures
            match r {
                Ok(id) => spec_parse_range_id(s@) == Some((id.name@, id.proprietor@)),
                Err(e) => spec_parse_range_id(s@) is None && e@ == s@,
            },
    {
        let chars = chars_of(s);
        let n = chars.len();
        let mut start: usize = 0;
        while start < n
            invariant
                n == chars@.len(),
                chars@ == s@,
                leftmost_match(chars@, 0) == leftmost_match(chars@, start as int),
            decreases n - start,
        {
            match match_at_exec(&chars, start) {
                Some((colon, close)) => {
                    let name = s.substring_char(start, colon).to_owned();
                    let proprietor = s.substring_char(colon + 2, close).to_owned();
                    return Ok(PaintRangeId { proprietor, name });
                },
                None => {},
            }
            start += 1;
        }
        Err(s.to_owned())
    }

    /// The written form `"<name>:(<proprietor>)"`.
    pub fn to_string(&self) -> (r: String)
        ensures
            r@ == spec_display(self.name@, self.proprietor@),
    {
        let a = concat2(self.name.as_str(), ":(");
        let b = concat2(a.as_str(), self.proprietor.as_str());
        concat2(b.as_str(), ")")
    }
}

impl std::str::FromStr for PaintRangeId {
    type Err = String;

    fn from_str(s: &str) -> (r: Result<Self, String>)
        ensures
            match r {
                Ok(id) => spec_parse_range_id(s@) == Some((id.name@, id.proprietor@)),
                Err(e) => spec_parse_range_id(s@) is None && e@ == s@,
            },
    {
        PaintRangeId::from_str(s)
    }
}

/// The first `c` from `from` on is at `target` when `target` holds `c` and nothing between
/// does.
proof fn lemma_first_char_at(s: Seq<char>, c: char, from: int, target: int)
    requires
        0 <= from <= target < s.len(),
        s[target] == c,
        forall|j: int| from <= j < target ==> s[j] != c,
    ensures
        first_char_from(s, c, from) == Some(target),
    decreases target - from,
{
    if from < target {
        lemma_first_char_at(s, c, from + 1, target);
    }
}

/// Reading the written form of an identifier gives back its name and proprietor, for every
/// non-empty name without `':'` and every non-empty proprietor without `')'`.
pub proof fn law_parse_display_roundtrip(name: Seq<char>, proprietor: Seq<char>)
    requires
        name.len() > 0,
        !name.contains(':'),
        proprietor.len() > 0,
        !proprietor.contains(')'),
    ensures
        spec_parse_range_id(spec_display(name, proprietor)) == Some((name, proprietor)),
{
    let s = spec_display(name, proprietor);
    reveal_strlit(":(");
    reveal_strlit(")");
    let colon = name.len() as int;
    let close = colon + 2 + proprietor.len();
    assert(s.len() == close + 1);
    assert forall|j: int| 0 <= j < colon implies s[j] != ':' by {
        assert(s[j] == name[j]);
        if name[j] == ':' {
            assert(name.contains(':'));
        }
    }
    assert(s[colon] == ':');
    assert(s[colon + 1] == '(');
    lemma_first_char_at(s, ':', 0, colon);
    assert forall|j: int| colon + 2 <= j < close implies s[j] != ')' by {
        assert(s[j] == proprietor[j - colon - 2]);
        if proprietor[j - colon - 2] == ')' {
            assert(proprietor.contains(')'));
        }
    }
    assert(s[close] == ')');
    lemma_first_char_at(s, ')', colon + 2, close);
    assert(match_at(s, 0) == Some((colon, close)));
    assert(s.subrange(0, colon) =~= name);
    assert(s.subrange(colon + 2, close) =~= proprietor);
}

} // verus!
