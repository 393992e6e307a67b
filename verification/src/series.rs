//! A series of paints: like a range, the paints of one proprietor's product series, kept in
//! order of their keys.

use vstd::prelude::*;

use crate::keyed::{
    add_by_key, get_by_key, has_key, is_sorted_by_key, key_map, lemma_view_map_insert,
    lemma_view_map_remove, remove_by_key, sorted_by_key, view_map,
};
use crate::paint::{colln_view, copy_id, CollnPaint, Paint, PaintView, SeriesId};
use crate::Error;

verus! {

/// The paints of a series, by key, in ascending key order.
#[derive(Debug, Clone, PartialEq)]
pub struct PaintSeries<C> {
    pub series_id: SeriesId,
    pub paint_list: Vec<Paint<C>>,
}

impl<C> PaintSeries<C> {
    /// The paints are kept in strictly ascending order of their keys.
    pub open spec fn is_well_formed(&self) -> bool {
        sorted_by_key(self.paint_list@)
    }

    /// The paints, as a map from their keys.
    pub open spec fn paints_view(&self) -> Map<Seq<char>, PaintView<C>> {
        view_map(self.paint_list@)
    }

    pub fn new(series_id: &SeriesId) -> (r: Self)
        ensures
            r.series_id.name@ == series_id.name@,
            r.series_id.proprietor@ == series_id.proprietor@,
            r.paint_list@.len() == 0,
            r.is_well_formed(),
    {
        PaintSeries { series_id: copy_id(series_id), paint_list: Vec::new() }
    }

    pub fn series_id(&self) -> (r: &SeriesId)
        ensures
            r == &self.series_id,
    {
        &self.series_id
    }

    pub fn set_proprietor(&mut self, proprietor: &str)
        ensures
            final(self).series_id.proprietor@ == proprietor@,
            final(self).series_id.name == old(self).series_id.name,
            final(self).paint_list == old(self).paint_list,
    {
        self.series_id.proprietor = proprietor.to_owned();
    }

    pub fn set_series_name(&mut self, series_name: &str)
        ensures
            final(self).series_id.name@ == series_name@,
            final(self).series_id.proprietor == old(self).series_id.proprietor,
            final(self).paint_list == old(self).paint_list,
    {
        self.series_id.name = series_name.to_owned();
    }

    /// Takes the paint with key `key` out of the series.
    pub fn remove(&mut self, key: &str) -> (r: Result<Paint<C>, Error>)
        requires
            old(self).is_well_formed(),
        ensures
            final(self).is_well_formed(),
            final(self).series_id == old(self).series_id,
            key_map(final(self).paint_list@) == key_map(old(self).paint_list@).remove(key@),
            final(self).paints_view() == old(self).paints_view().remove(key@),
            match r {
                Ok(p) => has_key(old(self).paint_list@, key@) && p == key_map(
                    old(self).paint_list@,
                )[key@],
                Err(e) => {
                    &&& !has_key(old(self).paint_list@, key@)
                    &&& final(self).paint_list@ == old(self).paint_list@
                    &&& e matches Error::NotFound(k) && k@ == key@
                },
            },
    {
        let r = remove_by_key(&mut self.paint_list, key);
        proof {
            lemma_view_map_remove(self.paint_list@, old(self).paint_list@, key@);
        }
        match r {
            Some(p) => Ok(p),
            None => Err(Error::NotFound(key.to_owned())),
        }
    }

    /// Takes every paint out of the series.
    pub fn remove_all(&mut self)
        ensures
            final(self).paint_list@.len() == 0,
            final(self).series_id == old(self).series_id,
            final(self).is_well_formed(),
    {
        self.paint_list.clear();
    }

    /// Whether the paints are in strictly ascending key order.
    pub fn is_sorted_unique(&self) -> (r: bool)
        ensures
            r == self.is_well_formed(),
    {
        is_sorted_by_key(&self.paint_list)
    }
}

impl<C: Copy> PaintSeries<C> {
    /// Puts a copy of `paint` in the series; a paint with the same key is replaced and handed
    /// back.
    pub fn add(&mut self, paint: &Paint<C>) -> (r: Option<Paint<C>>)
        requires
            old(self).is_well_formed(),
        ensures
            final(self).is_well_formed(),
            final(self).series_id == old(self).series_id,
            final(self).paints_view() == old(self).paints_view().insert(paint.name@, paint@),
            match r {
                Some(p) => has_key(old(self).paint_list@, paint.name@) && p == key_map(
                    old(self).paint_list@,
                )[paint.name@] && final(self).paint_list@.len() == old(self).paint_list@.len(),
                None => !has_key(old(self).paint_list@, paint.name@) && final(self).paint_list@.len()
                    == old(self).paint_list@.len() + 1,
            },
    {
        let copy = paint.duplicate();
        let r = add_by_key(&mut self.paint_list, copy);
        proof {
            lemma_view_map_insert(self.paint_list@, old(self).paint_list@, paint.name@, copy);
        }
        r
    }

    /// Each paint as a member of this series, in ascending key order.
    pub fn colln_paints(&self) -> (r: Vec<CollnPaint<C>>)
        ensures
            r@.len() == self.paint_list@.len(),
            forall|i: int|
                0 <= i < r@.len() ==> (#[trigger] r@[i])@ == colln_view(
                    self.paint_list@[i]@,
                    self.series_id.name@,
                    self.series_id.proprietor@,
                ),
    {
        let mut r: Vec<CollnPaint<C>> = Vec::new();
        let mut i: usize = 0;
        while i < self.paint_list.len()
            invariant
                i <= self.paint_list@.len(),
                r@.len() == i,
                forall|j: int|
                    0 <= j < i ==> (#[trigger] r@[j])@ == colln_view(
                        self.paint_list@[j]@,
                        self.series_id.name@,
                        self.series_id.proprietor@,
                    ),
            decreases self.paint_list@.len() - i,
        {
            r.push(CollnPaint::from((&self.paint_list[i], &self.series_id)));
            i += 1;
        }
        r
    }

    /// The paint with key `key` as a member of this series, if the series has one.
    pub fn find_colln_paint(&self, key: &str) -> (r: Option<CollnPaint<C>>)
        requires
            self.is_well_formed(),
        ensures
            match r {
                Some(p) => has_key(self.paint_list@, key@) && p@ == colln_view(
                    key_map(self.paint_list@)[key@]@,
                    self.series_id.name@,
                    self.series_id.proprietor@,
                ),
                None => !has_key(self.paint_list@, key@),
            },
    {
        match get_by_key(&self.paint_list, key) {
            Some(paint) => Some(CollnPaint::from((paint, &self.series_id))),
            None => None,
        }
    }
}

impl<C> Default for PaintSeries<C> {
    fn default() -> (r: Self)
        ensures
            r.series_id.name@ == Seq::<char>::empty(),
            r.series_id.proprietor@ == Seq::<char>::empty(),
            r.paint_list@.len() == 0,
    {
        PaintSeries { series_id: SeriesId::default(), paint_list: Vec::new() }
    }
}

} // verus!
