//! A range of paints: the paints of one proprietor's product range, kept in order of their
//! keys.

use vstd::prelude::*;

use crate::keyed::{
    add_by_key, get_by_key, has_key, is_sorted_by_key, key_map, lemma_view_map_insert,
    lemma_view_map_remove, remove_by_key, sorted_by_key, view_map,
};
use crate::paint::{
    colln_key, colln_view, copy_id, CollnPaint, CollnPaintView, Paint, PaintView, RangePaint,
};
use crate::range_id::{law_parse_display_roundtrip, spec_display, spec_parse_range_id, PaintRangeId};
use crate::text::{
    chars_of, find_separator, first_separator, lemma_first_separator_at,
    lemma_first_separator_none,
};
use crate::Error;
use vstd::string::*;

verus! {

/// The paints of a range, by key, in ascending key order.
#[derive(Debug, Clone, PartialEq)]
pub struct PaintRange<C> {
    pub range_id: PaintRangeId,
    pub paint_list: Vec<Paint<C>>,
}

/// The text of `key` before its first `"::"`, and the text after it, when there is one.
pub open spec fn split_key(key: Seq<char>) -> Option<(Seq<char>, Seq<char>)> {
    match first_separator(key, 0) {
        Some(i) => Some((key.subrange(0, i), key.subrange(i + 2, key.len() as int))),
        None => None,
    }
}

/// A collection paint key holds exactly one `"::"`, and after it a readable identifier.
pub open spec fn is_colln_key(key: Seq<char>) -> bool {
    match split_key(key) {
        Some((_, rest)) => first_separator(rest, 0) is None && spec_parse_range_id(rest) is Some,
        None => false,
    }
}

/// What looking `key` up among `paints` of the range `name` owned by `proprietor` finds: the
/// paint with that key, or else, reading `key` as a collection paint key, the paint with its
/// paint key when it names this range.
pub open spec fn range_paint_view<C>(
    paints: Seq<Paint<C>>,
    name: Seq<char>,
    proprietor: Seq<char>,
    key: Seq<char>,
) -> Option<CollnPaintView<C>> {
    if has_key(paints, key) {
        Some(colln_view(key_map(paints)[key]@, name, proprietor))
    } else {
        let (paint_key, written) = split_key(key)->0;
        if spec_parse_range_id(written) == Some((name, proprietor)) && has_key(paints, paint_key) {
            Some(colln_view(key_map(paints)[paint_key]@, name, proprietor))
        } else {
            None
        }
    }
}

impl<C> PaintRange<C> {
    /// The paints are kept in strictly ascending order of their keys.
    pub open spec fn is_well_formed(&self) -> bool {
        sorted_by_key(self.paint_list@)
    }

    /// The paints, as a map from their keys.
    pub open spec fn paints_view(&self) -> Map<Seq<char>, PaintView<C>> {
        view_map(self.paint_list@)
    }

    pub fn new(range_id: &PaintRangeId) -> (r: Self)
        ensures
            r.range_id.name@ == range_id.name@,
            r.range_id.proprietor@ == range_id.proprietor@,
            r.paint_list@.len() == 0,
            r.is_well_formed(),
    {
        PaintRange { range_id: copy_id(range_id), paint_list: Vec::new() }
    }

    pub fn range_id(&self) -> (r: &PaintRangeId)
        ensures
            r == &self.range_id,
    {
        &self.range_id
    }

    pub fn set_proprietor(&mut self, proprietor: &str)
        ensures
            final(self).range_id.proprietor@ == proprietor@,
            final(self).range_id.name == old(self).range_id.name,
            final(self).paint_list == old(self).paint_list,
    {
        self.range_id.proprietor = proprietor.to_owned();
    }

    pub fn set_range_name(&mut self, name: &str)
        ensures
            final(self).range_id.name@ == name@,
            final(self).range_id.proprietor == old(self).range_id.proprietor,
            final(self).paint_list == old(self).paint_list,
    {
        self.range_id.name = name.to_owned();
    }

    /// Takes the paint with key `key` out of the range.
    pub fn remove(&mut self, key: &str) -> (r: Result<Paint<C>, Error>)
        requires
            old(self).is_well_formed(),
        ensures
            final(self).is_well_formed(),
            final(self).range_id == old(self).range_id,
            key_map(final(self).paint_list@) == key_map(old(self).paint_list@).remove(key@),
            final(self).paints_view() == old(self).paints_view().remove(key@),
            match r {
                Ok(p) => has_key(old(self).paint_list@, key@) && p == key_map(
                    old(self).paint_list@,
                )[key@],
                Err(e) => {
                    &&& !has_key(old(self).paint_list@, key@)
                    &&& final(self).paint_list@ == old(self).paint_list@
                    &&& e matches Error::NotFound(k) && k@ == key@
                },
            },
    {
        let r = remove_by_key(&mut self.paint_list, key);
        proof {
            lemma_view_map_remove(self.paint_list@, old(self).paint_list@, key@);
        }
        match r {
            Some(p) => Ok(p),
            None => Err(Error::NotFound(key.to_owned())),
        }
    }

    /// Takes every paint out of the range.
    pub fn remove_all(&mut self)
        ensures
            final(self).paint_list@.len() == 0,
            final(self).range_id == old(self).range_id,
            final(self).is_well_formed(),
    {
        self.paint_list.clear();
    }

    /// The paints, in ascending key order.
    pub fn paints(&self) -> (r: &[Paint<C>])
        ensures
            r@ == self.paint_list@,
    {
        self.paint_list.as_slice()
    }

    /// Whether the paints are in strictly ascending key order.
    pub fn is_sorted_unique(&self) -> (r: bool)
        ensures
            r == self.is_well_formed(),
    {
        is_sorted_by_key(&self.paint_list)
    }

    /// The paint with key `key`, if the range has one.
    pub fn get_paint(&self, key: &str) -> (r: Option<&Paint<C>>)
        requires
            self.is_well_formed(),
        ensures
            match r {
                Some(p) => has_key(self.paint_list@, key@) && *p == key_map(self.paint_list@)[key@],
                None => !has_key(self.paint_list@, key@),
            },
    {
        get_by_key(&self.paint_list, key)
    }
}

impl<C: Copy> PaintRange<C> {
    /// Puts a copy of `paint` in the range; a paint with the same key is replaced and handed
    /// back.
    pub fn add(&mut self, paint: &Paint<C>) -> (r: Option<Paint<C>>)
        requires
            old(self).is_well_formed(),
        ensures
            final(self).is_well_formed(),
            final(self).range_id == old(self).range_id,
            final(self).paints_view() == old(self).paints_view().insert(paint.name@, paint@),
            match r {
                Some(p) => has_key(old(self).paint_list@, paint.name@) && p == key_map(
                    old(self).paint_list@,
                )[paint.name@] && final(self).paint_list@.len() == old(self).paint_list@.len(),
                None => !has_key(old(self).paint_list@, paint.name@) && final(self).paint_list@.len()
                    == old(self).paint_list@.len() + 1,
            },
    {
        let copy = paint.duplicate();
        let r = add_by_key(&mut self.paint_list, copy);
        proof {
            lemma_view_map_insert(self.paint_list@, old(self).paint_list@, paint.name@, copy);
        }
        r
    }

    /// Each paint as a member of this range, in ascending key order.
    pub fn range_paints(&self) -> (r: Vec<RangePaint<C>>)
        ensures
            r@.len() == self.paint_list@.len(),
            forall|i: int|
                0 <= i < r@.len() ==> (#[trigger] r@[i])@ == colln_view(
                    self.paint_list@[i]@,
                    self.range_id.name@,
                    self.range_id.proprietor@,
                ),
    {
        let mut r: Vec<RangePaint<C>> = Vec::new();
        let mut i: usize = 0;
        while i < self.paint_list.len()
            invariant
                i <= self.paint_list@.len(),
                r@.len() == i,
                forall|j: int|
                    0 <= j < i ==> (#[trigger] r@[j])@ == colln_view(
                        self.paint_list@[j]@,
                        self.range_id.name@,
                        self.range_id.proprietor@,
                    ),
            decreases self.paint_list@.len() - i,
        {
            r.push(CollnPaint::from((&self.paint_list[i], &self.range_id)));
            i += 1;
        }
        r
    }

    /// The paint with key `key` as a member of this range. A key that is not a paint's key is
    /// read as a collection paint key, `"<paint key>::<range identifier>"`, whose paint is
    /// looked up when it names this range.
    pub fn get_range_paint(&self, key: &str) -> (r: Option<RangePaint<C>>)
        requires
            self.is_well_formed(),
            !has_key(self.paint_list@, key@) ==> is_colln_key(key@),
        ensures
            match r {
                Some(p) => range_paint_view(
                    self.paint_list@,
                    self.range_id.name@,
                    self.range_id.proprietor@,
                    key@,
                ) == Some(p@),
                None => range_paint_view(
                    self.paint_list@,
                    self.range_id.name@,
                    self.range_id.proprietor@,
                    key@,
                ) is None,
            },
            has_key(self.paint_list@, key@) ==> (r matches Some(p) && p@ == colln_view(
                key_map(self.paint_list@)[key@]@,
                self.range_id.name@,
                self.range_id.proprietor@,
            )),
            !has_key(self.paint_list@, key@) ==> (r is Some <==> {
                &&& spec_parse_range_id((split_key(key@)->0).1) == Some(
                    (self.range_id.name@, self.range_id.proprietor@),
                )
                &&& has_key(self.paint_list@, (split_key(key@)->0).0)
            }),
    {
        proof {
            law_range_paint_names_its_range(
                self.paint_list@,
                self.range_id.name@,
                self.range_id.proprietor@,
                key@,
            );
        }
        match self.get_paint(key) {
            Some(paint) => Some(CollnPaint::from((paint, &self.range_id))),
            None => {
                let chars = chars_of(key);
                let n = chars.len();
                let sep = match find_separator(&chars, 0) {
                    Some(i) => i,
                    None => {
                        proof {
                            assert(false);
                        }
                        return None;
                    },
                };
                let paint_key = key.substring_char(0, sep);
                let written = key.substring_char(sep + 2, n);
                let range_id = match PaintRangeId::from_str(written) {
                    Ok(id) => id,
                    Err(_) => {
                        proof {
                            assert(false);
                        }
                        return None;
                    },
                };
                if range_id == self.range_id {
                    match self.get_paint(paint_key) {
                        Some(paint) => Some(CollnPaint::from((paint, &self.range_id))),
                        None => None,
                    }
                } else {
                    None
                }
            },
        }
    }
}

impl<C> Default for PaintRange<C> {
    fn default() -> (r: Self)
        ensures
            r.range_id.name@ == Seq::<char>::empty(),
            r.range_id.proprietor@ == Seq::<char>::empty(),
            r.paint_list@.len() == 0,
    {
        PaintRange { range_id: PaintRangeId::default(), paint_list: Vec::new() }
    }
}

/// A paint of a range is found again by the key it has as a member of that range,
/// `"<paint key>::<name>:(<proprietor>)"`, when that key is no paint's own key, the paint key
/// holds no `"::"` and does not end in `':'`, the name is not empty and holds no `':'`, and
/// the proprietor is not empty and holds neither `')'` nor `"::"`.
pub proof fn law_range_paint_found_by_its_colln_key<C>(
    paints: Seq<Paint<C>>,
    name: Seq<char>,
    proprietor: Seq<char>,
    k: Seq<char>,
)
    requires
        has_key(paints, k),
        first_separator(k, 0) is None,
        !(k.len() > 0 && k.last() == ':'),
        name.len() > 0,
        !name.contains(':'),
        proprietor.len() > 0,
        !proprietor.contains(')'),
        first_separator(proprietor, 0) is None,
        !has_key(paints, colln_key(k, name, proprietor)),
    ensures
        is_colln_key(colln_key(k, name, proprietor)),
        range_paint_view(paints, name, proprietor, colln_key(k, name, proprietor)) == Some(
            colln_view(key_map(paints)[k]@, name, proprietor),
        ),
{
    reveal_strlit("::");
    reveal_strlit(":(");
    reveal_strlit(")");
    let d = spec_display(name, proprietor);
    let ck = colln_key(k, name, proprietor);
    let n = k.len() as int;
    assert(ck =~= k + "::"@ + d);
    lemma_first_separator_none(k, 0);
    assert forall|i: int| 0 <= i < n implies !(#[trigger] ck[i] == ':' && ck[i + 1] == ':') by {
        assert(ck[i] == k[i]);
        if i < n - 1 {
            assert(ck[i + 1] == k[i + 1]);
        }
    }
    lemma_first_separator_at(ck, 0, n);
    assert(ck.subrange(0, n) =~= k);
    assert(ck.subrange(n + 2, ck.len() as int) =~= d);
    assert(split_key(ck) == Some((k, d)));
    let m = name.len() as int;
    let q = proprietor.len() as int;
    lemma_first_separator_none(proprietor, 0);
    assert forall|i: int| 0 <= i < d.len() - 1 implies !(#[trigger] d[i] == ':' && d[i + 1] == ':') by {
        if i < m {
            assert(d[i] == name[i]);
            assert(name.contains(name[i]));
        } else if i == m {
            assert(d[i + 1] == '(');
        } else if i == m + 1 {
            assert(d[i] == '(');
        } else if i < m + 1 + q {
            assert(d[i] == proprietor[i - m - 2]);
            assert(d[i + 1] == proprietor[i - m - 1]);
        } else {
            assert(d[i + 1] == ')');
        }
    }
    lemma_first_separator_none(d, 0);
    law_parse_display_roundtrip(name, proprietor);
}

/// Looking a key up in a range finds a paint of the range by its own key; a key that is no
/// paint's key finds a paint only when the identifier written after its `"::"` reads as this
/// range's name together with this range's proprietor, and the text before the `"::"` is the
/// key of a paint of the range, which is then the paint found.
pub proof fn law_range_paint_names_its_range<C>(
    paints: Seq<Paint<C>>,
    name: Seq<char>,
    proprietor: Seq<char>,
    key: Seq<char>,
)
    ensures
        has_key(paints, key) ==> range_paint_view(paints, name, proprietor, key) == Some(
            colln_view(key_map(paints)[key]@, name, proprietor),
        ),
        !has_key(paints, key) && is_colln_key(key) ==> {
            let paint_key = (split_key(key)->0).0;
            let written = (split_key(key)->0).1;
            &&& key == paint_key + "::"@ + written
            &&& (range_paint_view(paints, name, proprietor, key) is Some <==> {
                &&& spec_parse_range_id(written) == Some((name, proprietor))
                &&& has_key(paints, paint_key)
            })
            &&& range_paint_view(paints, name, proprietor, key) is Some ==> range_paint_view(
                paints,
                name,
                proprietor,
                key,
            ) == Some(colln_view(key_map(paints)[paint_key]@, name, proprietor))
        },
{
    reveal_strlit("::");
    if !has_key(paints, key) && is_colln_key(key) {
        let i = first_separator(key, 0)->0;
        crate::text::lemma_first_separator_bounds(key, 0);
        assert(key =~= key.subrange(0, i) + "::"@ + key.subrange(i + 2, key.len() as int));
    }
}

} // verus!
