//! Paints, and paints as members of a named range or series.

use vstd::prelude::*;

use crate::keyed::KeyedItem;
use crate::properties::{copy_properties, Properties, Property};
use crate::range_id::{spec_display, PaintRangeId};
use std::cmp::Ordering;

use crate::text::{concat2, seq_lt, str_eq, str_lt};
use crate::{LabelText, TooltipText};

verus! {

/// What a paint holds, as mathematical values.
pub struct PaintView<C> {
    pub name: Seq<char>,
    pub colour: C,
    pub notes: Seq<char>,
    pub properties: Seq<Property>,
}

/// A paint: its name (its key), colour, notes and properties.
#[derive(Debug, Clone)]
pub struct Paint<C> {
    pub name: String,
    pub colour: C,
    pub notes: String,
    pub properties: Properties,
}

impl<C> View for Paint<C> {
    type V = PaintView<C>;

    open spec fn view(&self) -> PaintView<C> {
        PaintView {
            name: self.name@,
            colour: self.colour,
            notes: self.notes@,
            properties: self.properties.0@,
        }
    }
}

impl<C> Paint<C> {
    /// The paint's key: its name.
    pub fn key(&self) -> (r: &str)
        ensures
            r@ == self.name@,
    {
        self.name.as_str()
    }
}

impl<C: Copy> Paint<C> {
    /// An identical paint.
    pub fn duplicate(&self) -> (r: Paint<C>)
        ensures
            r@ == self@,
    {
        Paint {
            name: self.name.clone(),
            colour: self.colour,
            notes: self.notes.clone(),
            properties: Properties(copy_properties(self.properties.0.as_slice())),
        }
    }
}

impl<C> KeyedItem for Paint<C> {
    open spec fn spec_key(&self) -> Seq<char> {
        self.name@
    }

    fn item_key(&self) -> (r: &str) {
        self.name.as_str()
    }
}

impl<C> TooltipText for Paint<C> {
    open spec fn spec_tooltip_text(&self) -> Seq<char> {
        self.name@ + "\n"@ + self.notes@ + "\n"@
    }

    fn tooltip_text(&self) -> (r: String) {
        let a = concat2(self.name.as_str(), "\n");
        let b = concat2(a.as_str(), self.notes.as_str());
        concat2(b.as_str(), "\n")
    }
}

/// Paints are equal when their keys (their names) are.
impl<C> PartialEq for Paint<C> {
    fn eq(&self, other: &Self) -> (r: bool) {
        str_eq(self.name.as_str(), other.name.as_str())
    }
}

impl<C> vstd::std_specs::cmp::PartialEqSpecImpl for Paint<C> {
    open spec fn obeys_eq_spec() -> bool {
        true
    }

    open spec fn eq_spec(&self, other: &Self) -> bool {
        self.name@ == other.name@
    }
}

impl<C> Eq for Paint<C> {
}

/// How two character sequences compare in the lexicographic order.
pub open spec fn compare_seqs(a: Seq<char>, b: Seq<char>) -> Ordering {
    if seq_lt(a, b) {
        Ordering::Less
    } else if a == b {
        Ordering::Equal
    } else {
        Ordering::Greater
    }
}

/// How two strings compare in the lexicographic order.
fn compare_strs(a: &str, b: &str) -> (r: Ordering)
    ensures
        r == compare_seqs(a@, b@),
{
    if str_lt(a, b) {
        Ordering::Less
    } else if str_eq(a, b) {
        Ordering::Equal
    } else {
        Ordering::Greater
    }
}

/// Paints are ordered by their keys (their names).
impl<C> PartialOrd for Paint<C> {
    fn partial_cmp(&self, other: &Self) -> (r: Option<Ordering>) {
        Some(compare_strs(self.name.as_str(), other.name.as_str()))
    }
}

impl<C> vstd::std_specs::cmp::PartialOrdSpecImpl for Paint<C> {
    open spec fn obeys_partial_cmp_spec() -> bool {
        true
    }

    open spec fn partial_cmp_spec(&self, other: &Self) -> Option<Ordering> {
        Some(compare_seqs(self.name@, other.name@))
    }
}

/// The identifier of a paint series: the same shape as a range identifier.
pub type SeriesId = PaintRangeId;

/// What a paint of a collection holds, as mathematical values.
pub struct CollnPaintView<C> {
    pub key: Seq<char>,
    pub paint: PaintView<C>,
    pub series_name: Seq<char>,
    pub proprietor: Seq<char>,
}

/// The key that a paint has in a collection: its own key, `"::"`, then the collection's
/// written identifier.
pub open spec fn colln_key(paint_key: Seq<char>, name: Seq<char>, proprietor: Seq<char>) -> Seq<
    char,
> {
    paint_key + "::"@ + spec_display(name, proprietor)
}

/// A paint together with the range (or series) that it belongs to.
#[derive(Debug, Clone)]
pub struct CollnPaint<C> {
    pub key: String,
    pub paint: Paint<C>,
    pub series_id: SeriesId,
}

/// A paint together with the range that it belongs to.
pub type RangePaint<C> = CollnPaint<C>;

impl<C> View for CollnPaint<C> {
    type V = CollnPaintView<C>;

    open spec fn view(&self) -> CollnPaintView<C> {
        CollnPaintView {
            key: self.key@,
            paint: self.paint@,
            series_name: self.series_id.name@,
            proprietor: self.series_id.proprietor@,
        }
    }
}

/// The view of `paint` as a member of the collection named `name` owned by `proprietor`.
pub open spec fn colln_view<C>(paint: PaintView<C>, name: Seq<char>, proprietor: Seq<char>) -> CollnPaintView<C> {
    CollnPaintView {
        key: colln_key(paint.name, name, proprietor),
        paint,
        series_name: name,
        proprietor,
    }
}

/// A copy of a collection identifier.
pub fn copy_id(id: &PaintRangeId) -> (r: PaintRangeId)
    ensures
        r.name@ == id.name@,
        r.proprietor@ == id.proprietor@,
{
    PaintRangeId { proprietor: id.proprietor.clone(), name: id.name.clone() }
}

impl<C: Copy> CollnPaint<C> {
    /// The paint as a member of the collection `series_id`.
    pub fn from(pair: (&Paint<C>, &SeriesId)) -> (r: CollnPaint<C>)
        ensures
            r@ == colln_view(pair.0@, pair.1.name@, pair.1.proprietor@),
    {
        let (paint, series_id) = pair;
        let head = concat2(paint.key(), "::");
        let written = series_id.to_string();
        let key = concat2(head.as_str(), written.as_str());
        CollnPaint { key, paint: paint.duplicate(), series_id: copy_id(series_id) }
    }

    /// An identical collection paint.
    pub fn duplicate(&self) -> (r: CollnPaint<C>)
        ensures
            r@ == self@,
    {
        CollnPaint {
            key: self.key.clone(),
            paint: self.paint.duplicate(),
            series_id: copy_id(&self.series_id),
        }
    }

    pub fn colour(&self) -> (r: C)
        ensures
            r == self.paint.colour,
    {
        self.paint.colour
    }
}

impl<C> CollnPaint<C> {
    pub fn key(&self) -> (r: &str)
        ensures
            r@ == self.key@,
    {
        self.key.as_str()
    }

    pub fn name(&self) -> (r: &str)
        ensures
            r@ == self.paint.name@,
    {
        self.paint.name.as_str()
    }

    pub fn notes(&self) -> (r: &str)
        ensures
            r@ == self.paint.notes@,
    {
        self.paint.notes.as_str()
    }

    /// The paint's properties, in order.
    pub fn properties(&self) -> (r: Vec<Property>)
        ensures
            r@ == self.paint.properties.0@,
    {
        self.paint.properties.iter()
    }

    pub fn series_id(&self) -> (r: &SeriesId)
        ensures
            r == &self.series_id,
    {
        &self.series_id
    }

    /// The paint itself.
    pub fn into_paint(self) -> (r: Paint<C>)
        ensures
            r == self.paint,
    {
        self.paint
    }
}

impl<C> KeyedItem for CollnPaint<C> {
    open spec fn spec_key(&self) -> Seq<char> {
        self.key@
    }

    fn item_key(&self) -> (r: &str) {
        self.key.as_str()
    }
}

impl<C> TooltipText for CollnPaint<C> {
    open spec fn spec_tooltip_text(&self) -> Seq<char> {
        "\n"@ + self.paint.name@ + "\n"@ + self.paint.notes@ + "\n"@
            + self.series_id.name@ + "\n"@ + self.series_id.proprietor@
    }

    fn tooltip_text(&self) -> (r: String) {
        let b = concat2("\n", self.paint.name.as_str());
        let c = concat2(b.as_str(), "\n");
        let d = concat2(c.as_str(), self.paint.notes.as_str());
        let e = concat2(d.as_str(), "\n");
        let f = concat2(e.as_str(), self.series_id.name.as_str());
        let g = concat2(f.as_str(), "\n");
        concat2(g.as_str(), self.series_id.proprietor.as_str())
    }
}

impl<C> LabelText for CollnPaint<C> {
    open spec fn spec_label_text(&self) -> Seq<char> {
        self.paint.name@ + ":"@ + spec_display(self.series_id.name@, self.series_id.proprietor@)
    }

    fn label_text(&self) -> (r: String) {
        let a = concat2(self.paint.name.as_str(), ":");
        let written = self.series_id.to_string();
        concat2(a.as_str(), written.as_str())
    }
}

/// Collection paints are equal when their keys, their paints' keys and their collections are.
impl<C> PartialEq for CollnPaint<C> {
    fn eq(&self, other: &Self) -> (r: bool) {
        str_eq(self.key.as_str(), other.key.as_str()) && str_eq(
            self.paint.name.as_str(),
            other.paint.name.as_str(),
        ) && self.series_id == other.series_id
    }
}

impl<C> vstd::std_specs::cmp::PartialEqSpecImpl for CollnPaint<C> {
    open spec fn obeys_eq_spec() -> bool {
        true
    }

    open spec fn eq_spec(&self, other: &Self) -> bool {
        &&& self.key@ == other.key@
        &&& self.paint.name@ == other.paint.name@
        &&& self.series_id.name@ == other.series_id.name@
        &&& self.series_id.proprietor@ == other.series_id.proprietor@
    }
}

impl<C> Eq for CollnPaint<C> {
}

/// Collection paints are ordered by their keys, then their paints' keys, then their
/// collections' proprietors and names.
impl<C> PartialOrd for CollnPaint<C> {
    fn partial_cmp(&self, other: &Self) -> (r: Option<Ordering>) {
        match compare_strs(self.key.as_str(), other.key.as_str()) {
            Ordering::Equal => {},
            by_key => {
                return Some(by_key);
            },
        }
        match compare_strs(self.paint.name.as_str(), other.paint.name.as_str()) {
            Ordering::Equal => {},
            by_paint => {
                return Some(by_paint);
            },
        }
        match compare_strs(
            self.series_id.proprietor.as_str(),
            other.series_id.proprietor.as_str(),
        ) {
            Ordering::Equal => {},
            by_proprietor => {
                return Some(by_proprietor);
            },
        }
        Some(compare_strs(self.series_id.name.as_str(), other.series_id.name.as_str()))
    }
}

impl<C> vstd::std_specs::cmp::PartialOrdSpecImpl for CollnPaint<C> {
    open spec fn obeys_partial_cmp_spec() -> bool {
        true
    }

    open spec fn partial_cmp_spec(&self, other: &Self) -> Option<Ordering> {
        if compare_seqs(self.key@, other.key@) != Ordering::Equal {
            Some(compare_seqs(self.key@, other.key@))
        } else if compare_seqs(self.paint.name@, other.paint.name@) != Ordering::Equal {
            Some(compare_seqs(self.paint.name@, other.paint.name@))
        } else if compare_seqs(self.series_id.proprietor@, other.series_id.proprietor@)
            != Ordering::Equal {
            Some(compare_seqs(self.series_id.proprietor@, other.series_id.proprietor@))
        } else {
            Some(compare_seqs(self.series_id.name@, other.series_id.name@))
        }
    }
}

} // verus!
