//! Character-level helpers shared by the parsers and the sorted collections.

use vstd::prelude::*;
use vstd::string::*;

verus! {

/// Strict lexicographic order on character sequences, characters compared by
/// their code points (the order in which `str` values compare).
pub open spec fn seq_lt(a: Seq<char>, b: Seq<char>) -> bool
    decreases a.len(),
{
    if a.len() == 0 {
        b.len() > 0
    } else if b.len() == 0 {
        false
    } else if (a[0] as int) < (b[0] as int) {
        true
    } else if a[0] == b[0] {
        seq_lt(a.drop_first(), b.drop_first())
    } else {
        false
    }
}

/// No sequence is below itself.
pub proof fn lemma_seq_lt_irreflexive(a: Seq<char>)
    ensures
        !seq_lt(a, a),
    decreases a.len(),
{
    if a.len() > 0 {
        lemma_seq_lt_irreflexive(a.drop_first());
    }
}

/// The order is transitive.
pub proof fn lemma_seq_lt_transitive(a: Seq<char>, b: Seq<char>, c: Seq<char>)
    requires
        seq_lt(a, b),
        seq_lt(b, c),
    ensures
        seq_lt(a, c),
    decreases a.len(),
{
    if a.len() > 0 && b.len() > 0 && c.len() > 0 {
        if a[0] == b[0] && b[0] == c[0] {
            lemma_seq_lt_transitive(a.drop_first(), b.drop_first(), c.drop_first());
        }
    }
}

/// Any two different sequences are ordered one way or the other.
pub proof fn lemma_seq_lt_total(a: Seq<char>, b: Seq<char>)
    requires
        a != b,
    ensures
        seq_lt(a, b) || seq_lt(b, a),
    decreases a.len(),
{
    if a.len() > 0 && b.len() > 0 {
        if a[0] == b[0] {
            if a.drop_first() == b.drop_first() {
                assert(a =~= seq![a[0]] + a.drop_first());
                assert(b =~= seq![b[0]] + b.drop_first());
            }
            lemma_seq_lt_total(a.drop_first(), b.drop_first());
        } else {
            assert((a[0] as int) != (b[0] as int));
        }
    } else if a.len() == 0 && b.len() == 0 {
        assert(a =~= b);
    }
}

/// The order is asymmetric.
pub proof fn lemma_seq_lt_asymmetric(a: Seq<char>, b: Seq<char>)
    requires
        seq_lt(a, b),
    ensures
        !seq_lt(b, a),
{
    if seq_lt(b, a) {
        lemma_seq_lt_transitive(a, b, a);
        lemma_seq_lt_irreflexive(a);
    }
}

/// Whether two strings hold the same characters.
pub fn str_eq(a: &str, b: &str) -> (r: bool)
    ensures
        r == (a@ == b@),
{
    let n = a.unicode_len();
    let m = b.unicode_len();
    if n != m {
        return false;
    }
    let mut i: usize = 0;
    while i < n
        invariant
            n == a@.len(),
            m == b@.len(),
            n == m,
            i <= n,
            forall|j: int| 0 <= j < i ==> a@[j] == b@[j],
        decreases n - i,
    {
        if a.get_char(i) != b.get_char(i) {
            return false;
        }
        i += 1;
    }
    assert(a@ =~= b@);
    true
}

/// Whether `a` comes strictly before `b` in the lexicographic order.
pub fn str_lt(a: &str, b: &str) -> (r: bool)
    ensures
        r == seq_lt(a@, b@),
{
    let n = a.unicode_len();
    let m = b.unicode_len();
    let mut i: usize = 0;
    assert(a@.skip(0) =~= a@);
    assert(b@.skip(0) =~= b@);
    while i < n && i < m
        invariant
            n == a@.len(),
            m == b@.len(),
            i <= n,
            i <= m,
            seq_lt(a@, b@) == seq_lt(a@.skip(i as int), b@.skip(i as int)),
        decreases n - i,
    {
        let ca = a.get_char(i);
        let cb = b.get_char(i);
        assert(a@.skip(i as int)[0] == ca);
        assert(b@.skip(i as int)[0] == cb);
        if (ca as u32) < (cb as u32) {
            return true;
        }
        if ca != cb {
            return false;
        }
        assert(a@.skip(i as int).drop_first() =~= a@.skip(i + 1));
        assert(b@.skip(i as int).drop_first() =~= b@.skip(i + 1));
        i += 1;
    }
    n < m
}

/// The characters of a string, in order.
pub fn chars_of(s: &str) -> (v: Vec<char>)
    ensures
        v@ == s@,
{
    let n = s.unicode_len();
    let mut v: Vec<char> = Vec::new();
    let mut i: usize = 0;
    while i < n
        invariant
            n == s@.len(),
            i <= n,
            v@ =~= s@.subrange(0, i as int),
        decreases n - i,
    {
        v.push(s.get_char(i));
        i += 1;
    }
    assert(v@ =~= s@);
    v
}

/// A new string that holds `a` followed by `b`.
pub fn concat2(a: &str, b: &str) -> (r: String)
    ensures
        r@ == a@ + b@,
{
    let mut r = a.to_owned();
    r.append(b);
    r
}

/// The position of the first `"::"` separator in `s` at or after position `from`.
pub open spec fn first_separator(s: Seq<char>, from: int) -> Option<int>
    decreases s.len() - from,
{
    if from < 0 || from + 1 >= s.len() {
        None
    } else if s[from] == ':' && s[from + 1] == ':' {
        Some(from)
    } else {
        first_separator(s, from + 1)
    }
}

/// A separator found by `first_separator` lies inside the sequence, at or after `from`,
/// and really is a separator.
pub proof fn lemma_first_separator_bounds(s: Seq<char>, from: int)
    ensures
        first_separator(s, from) matches Some(i) ==> from <= i && i + 1 < s.len() && s[i] == ':'
            && s[i + 1] == ':',
    decreases s.len() - from,
{
    if from >= 0 && from + 1 < s.len() && !(s[from] == ':' && s[from + 1] == ':') {
        lemma_first_separator_bounds(s, from + 1);
    }
}

/// There is no `"::"` at or after `from` exactly when no position from `from` on starts one.
pub proof fn lemma_first_separator_none(s: Seq<char>, from: int)
    requires
        0 <= from,
    ensures
        (first_separator(s, from) is None) == (forall|i: int|
            from <= i < s.len() - 1 ==> !(#[trigger] s[i] == ':' && s[i + 1] == ':')),
    decreases s.len() - from,
{
    if from + 1 < s.len() {
        lemma_first_separator_none(s, from + 1);
        if s[from] == ':' && s[from + 1] == ':' {
            assert(!(forall|i: int|
                from <= i < s.len() - 1 ==> !(#[trigger] s[i] == ':' && s[i + 1] == ':')));
        }
    }
}

/// The first `"::"` at or after `from` is at `at` when one starts there and none starts
/// between.
pub proof fn lemma_first_separator_at(s: Seq<char>, from: int, at: int)
    requires
        0 <= from <= at,
        at + 1 < s.len(),
        s[at] == ':' && s[at + 1] == ':',
        forall|i: int| from <= i < at ==> !(#[trigger] s[i] == ':' && s[i + 1] == ':'),
    ensures
        first_separator(s, from) == Some(at),
    decreases at - from,
{
    if from < at {
        lemma_first_separator_at(s, from + 1, at);
    }
}

/// Finds the first `"::"` separator in `chars` at or after position `from`.
pub fn find_separator(chars: &Vec<char>, from: usize) -> (r: Option<usize>)
    ensures
        match r {
            Some(i) => first_separator(chars@, from as int) == Some(i as int),
            None => first_separator(chars@, from as int) is None,
        },
        r matches Some(i) ==> from <= i && i + 1 < chars@.len(),
{
    proof {
        lemma_first_separator_bounds(chars@, from as int);
    }
    let n = chars.len();
    let mut i = from;
    while i < n && i + 1 < n
        invariant
            n == chars@.len(),
            from <= i,
            first_separator(chars@, from as int) == first_separator(chars@, i as int),
        decreases n - i,
    {
        if chars[i] == ':' && chars[i + 1] == ':' {
            return Some(i);
        }
        i += 1;
    }
    None
}

/// Whether `c` has the Unicode `Uppercase` property, the answer of `char::is_uppercase`.
pub uninterp spec fn has_uppercase_property(c: char) -> bool;

/// `char::is_uppercase` from std. Its result is named by `has_uppercase_property`; for an
/// ASCII character the property holds exactly of `'A'` to `'Z'`. Beyond ASCII nothing more
/// is stated: the Unicode tables decide.
#[verifier::external_body]
fn char_is_uppercase(c: char) -> (r: bool)
    ensures
        r == has_uppercase_property(c),
        (c as int) < 128 ==> (r <==> (65 <= (c as int) && (c as int) <= 90)),
{
    c.is_uppercase()
}

/// The upper-case characters of `s`, in order.
pub open spec fn spec_acronym(s: Seq<char>) -> Seq<char>
    decreases s.len(),
{
    if s.len() == 0 {
        Seq::empty()
    } else if has_uppercase_property(s.last()) {
        spec_acronym(s.drop_last()).push(s.last())
    } else {
        spec_acronym(s.drop_last())
    }
}

/// The upper-case characters of `input`, in order (`"SemiTransparent"` gives `"ST"`).
pub fn acronym(input: &str) -> (r: String)
    ensures
        r@ == spec_acronym(input@),
{
    let n = input.unicode_len();
    let mut output = String::new();
    let mut i: usize = 0;
    while i < n
        invariant
            n == input@.len(),
            i <= n,
            output@ == spec_acronym(input@.take(i as int)),
        decreases n - i,
    {
        let c = input.get_char(i);
        assert(input@.take(i + 1).drop_last() =~= input@.take(i as int));
        assert(input@.take(i + 1).last() == c);
        if char_is_uppercase(c) {
            let piece = input.substring_char(i, i + 1);
            assert(piece@ =~= seq![c]);
            output.append(piece);
            assert(output@ =~= spec_acronym(input@.take(i as int)).push(c));
        }
        i += 1;
    }
    assert(input@.take(n as int) =~= input@);
    output
}

/// The first `n` characters of `s` (all of them where it is shorter), then a full stop.
pub open spec fn spec_abbreviate(s: Seq<char>, n: nat) -> Seq<char> {
    (if n < s.len() {
        s.take(n as int)
    } else {
        s
    }) + "."@
}

/// The first `n` characters of `input` followed by `'.'` (`"Transparency"` and 2 give `"Tr."`).
pub fn abbreviate(input: &str, n: usize) -> (r: String)
    ensures
        r@ == spec_abbreviate(input@, n as nat),
{
    let len = input.unicode_len();
    let k = if n < len {
        n
    } else {
        len
    };
    let mut output = input.substring_char(0, k).to_owned();
    output.append(".");
    assert(input@.subrange(0, len as int) =~= input@);
    output
}

} // verus!
