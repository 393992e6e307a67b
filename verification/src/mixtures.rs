//! Mixtures of paints, sessions of mixing, and the building of a mixture from its parts.

use vstd::prelude::*;

use crate::keyed::{
    lemma_key_map_at,
    add_by_key, add_if_absent, get_by_key, has_key, key_map, lemma_view_map_domain,
    sorted_by_key, view_map, KeyedItem,
};
use crate::paint::{CollnPaint, CollnPaintView, RangePaint};
use crate::properties::{
    compatible, rounded_mean, str_values, Properties, Property, PropertyMixer, PropertyType,
};
use crate::ratio::{divides, gcd_all, gcd_of, lemma_gcd_all, times};
use crate::text::{concat2, seq_lt, str_lt};
use crate::{LabelText, TooltipText};

verus! {

/// What a mixture holds, as mathematical values.
pub struct MixtureView<C> {
    pub id: Seq<char>,
    pub colour: C,
    pub name: Seq<char>,
    pub notes: Seq<char>,
    pub properties: Seq<Property>,
    pub components: Seq<(CollnPaintView<C>, u64)>,
}

/// A mixture of paints: its identifier (its key), colour, name, notes, mixed properties, and
/// the paints it is made of, each with its number of parts.
#[derive(Debug, Clone, PartialEq, Eq)]
pub struct Mixture<C> {
    pub id: String,
    pub colour: C,
    pub name: String,
    pub notes: String,
    pub properties: Properties,
    pub components: Vec<(RangePaint<C>, u64)>,
}

/// The views of a list of components.
pub open spec fn components_view<C>(cs: Seq<(CollnPaint<C>, u64)>) -> Seq<(CollnPaintView<C>, u64)> {
    cs.map_values(|c: (CollnPaint<C>, u64)| (c.0@, c.1))
}

impl<C> View for Mixture<C> {
    type V = MixtureView<C>;

    open spec fn view(&self) -> MixtureView<C> {
        MixtureView {
            id: self.id@,
            colour: self.colour,
            name: self.name@,
            notes: self.notes@,
            properties: self.properties.0@,
            components: components_view(self.components@),
        }
    }
}

impl<C> Mixture<C> {
    pub fn id(&self) -> (r: &str)
        ensures
            r@ == self.id@,
    {
        self.id.as_str()
    }

    pub fn name(&self) -> (r: &str)
        ensures
            r@ == self.name@,
    {
        self.name.as_str()
    }

    pub fn notes(&self) -> (r: &str)
        ensures
            r@ == self.notes@,
    {
        self.notes.as_str()
    }

    /// The mixed properties, in order.
    pub fn iter_properties(&self) -> (r: Vec<Property>)
        ensures
            r@ == self.properties.0@,
    {
        self.properties.iter()
    }

    /// The paints the mixture is made of, each with its number of parts.
    pub fn components(&self) -> (r: &[(RangePaint<C>, u64)])
        ensures
            r@ == self.components@,
    {
        self.components.as_slice()
    }
}

impl<C> KeyedItem for Mixture<C> {
    open spec fn spec_key(&self) -> Seq<char> {
        self.id@
    }

    fn item_key(&self) -> (r: &str) {
        self.id.as_str()
    }
}

impl<C> LabelText for Mixture<C> {
    open spec fn spec_label_text(&self) -> Seq<char> {
        "Mix "@ + self.id@ + ": "@ + self.name@
    }

    fn label_text(&self) -> (r: String) {
        let a = concat2("Mix ", self.id.as_str());
        let b = concat2(a.as_str(), ": ");
        concat2(b.as_str(), self.name.as_str())
    }
}

impl<C> TooltipText for Mixture<C> {
    open spec fn spec_tooltip_text(&self) -> Seq<char> {
        if self.notes@.len() == 0 {
            self.spec_label_text()
        } else {
            self.spec_label_text() + "\n"@ + self.notes@
        }
    }

    fn tooltip_text(&self) -> (r: String) {
        let label = self.label_text();
        if self.notes.as_str().is_empty() {
            label
        } else {
            let a = concat2(label.as_str(), "\n");
            concat2(a.as_str(), self.notes.as_str())
        }
    }
}

/// The paints of all the components of `ms`, mixture by mixture, in order.
pub open spec fn component_paints<C>(ms: Seq<Mixture<C>>) -> Seq<CollnPaint<C>>
    decreases ms.len(),
{
    if ms.len() == 0 {
        Seq::empty()
    } else {
        component_paints(ms.drop_last()) + ms.last().components@.map_values(
            |c: (CollnPaint<C>, u64)| c.0,
        )
    }
}

/// The views of the items of `s` by key, each key taken from its first item.
pub open spec fn first_views<T: KeyedItem>(s: Seq<T>) -> Map<Seq<char>, T::V>
    decreases s.len(),
{
    if s.len() == 0 {
        Map::empty()
    } else {
        let m = first_views(s.drop_last());
        if m.contains_key(s.last().spec_key()) {
            m
        } else {
            m.insert(s.last().spec_key(), s.last()@)
        }
    }
}

/// An item's key is in `first_views(s)` exactly when some item of `s` has it, and the view
/// kept for a key is the view of an item of `s` with that key.
proof fn lemma_first_views<T: KeyedItem>(s: Seq<T>, k: Seq<char>)
    ensures
        first_views(s).contains_key(k) == has_key(s, k),
        first_views(s).contains_key(k) ==> exists|idx: int|
            0 <= idx < s.len() && (#[trigger] s[idx]).spec_key() == k && first_views(s)[k]
                == s[idx]@,
    decreases s.len(),
{
    if s.len() > 0 {
        let t = s.drop_last();
        lemma_first_views(t, k);
        if has_key(t, k) {
            let i = choose|i: int| 0 <= i < t.len() && (#[trigger] t[i]).spec_key() == k;
            assert(s[i] == t[i]);
        }
        if has_key(s, k) && !has_key(t, k) {
            let i = choose|i: int| 0 <= i < s.len() && (#[trigger] s[i]).spec_key() == k;
            if i < t.len() {
                assert(t[i] == s[i]);
            }
        }
        if first_views(t).contains_key(k) {
            let idx = choose|idx: int|
                0 <= idx < t.len() && (#[trigger] t[idx]).spec_key() == k && first_views(t)[k]
                    == t[idx]@;
            assert(s[idx] == t[idx]);
        } else if first_views(s).contains_key(k) {
            assert(s[s.len() - 1].spec_key() == k);
        }
    }
}

/// `p` is the paint of some component of some mixture of `ms`.
pub open spec fn is_component_paint<C>(ms: Seq<Mixture<C>>, p: CollnPaint<C>) -> bool {
    exists|i: int, j: int|
        0 <= i < ms.len() && 0 <= j < ms[i].components@.len() && (#[trigger] ms[i].components@[j]).0
            == p
}

/// `v` is the view of the paint of some component of some mixture of `ms`.
pub open spec fn is_component_paint_view<C>(ms: Seq<Mixture<C>>, v: CollnPaintView<C>) -> bool {
    exists|i: int, j: int|
        0 <= i < ms.len() && 0 <= j < ms[i].components@.len() && (#[trigger] ms[i].components@[j]).0@
            == v
}

/// Every component paint of every mixture is in `component_paints(ms)`, and every item of it
/// is the paint of some component of some mixture.
proof fn lemma_component_paints<C>(ms: Seq<Mixture<C>>)
    ensures
        forall|i: int, j: int|
            0 <= i < ms.len() && 0 <= j < ms[i].components@.len() ==> component_paints(ms).contains(
                (#[trigger] ms[i].components@[j]).0,
            ),
        forall|idx: int|
            0 <= idx < component_paints(ms).len() ==> is_component_paint(
                ms,
                #[trigger] component_paints(ms)[idx],
            ),
    decreases ms.len(),
{
    if ms.len() > 0 {
        let t = ms.drop_last();
        lemma_component_paints(t);
        let head = component_paints(t);
        let tail = ms.last().components@.map_values(|c: (CollnPaint<C>, u64)| c.0);
        assert(component_paints(ms) =~= head + tail);
        assert forall|i: int, j: int|
            0 <= i < ms.len() && 0 <= j < ms[i].components@.len() implies component_paints(
                ms,
            ).contains((#[trigger] ms[i].components@[j]).0) by {
            if i < t.len() {
                assert(t[i] == ms[i]);
                assert(head.contains(t[i].components@[j].0));
                let idx = choose|idx: int| 0 <= idx < head.len() && head[idx] == t[i].components@[j].0;
                assert(component_paints(ms)[idx] == head[idx]);
            } else {
                assert(component_paints(ms)[head.len() + j] == tail[j]);
            }
        }
        assert forall|idx: int| 0 <= idx < component_paints(ms).len() implies is_component_paint(
            ms,
            #[trigger] component_paints(ms)[idx],
        ) by {
            if idx < head.len() {
                assert(component_paints(ms)[idx] == head[idx]);
                assert(is_component_paint(t, head[idx]));
                let (i, j) = choose|i: int, j: int|
                    0 <= i < t.len() && 0 <= j < t[i].components@.len() && (
                    #[trigger] t[i].components@[j]).0 == head[idx];
                assert(t[i] == ms[i]);
                assert(ms[i].components@[j] == t[i].components@[j]);
            } else {
                let j = idx - head.len();
                assert(component_paints(ms)[idx] == tail[j]);
                assert(ms[ms.len() - 1].components@[j] == ms.last().components@[j]);
            }
        }
    } else {
        assert(component_paints(ms).len() == 0);
    }
}

/// The paints listed for a session cover its mixtures' components: every component of every
/// mixture has its paint's key in the list, and every paint in the list is, in its views, the
/// paint of some component of some mixture.
pub proof fn law_series_paints_cover_components<C>(ms: Seq<Mixture<C>>, r: Seq<RangePaint<C>>)
    requires
        sorted_by_key(r),
        view_map(r) == first_views(component_paints(ms)),
    ensures
        forall|i: int, j: int|
            0 <= i < ms.len() && 0 <= j < ms[i].components@.len() ==> has_key(
                r,
                (#[trigger] ms[i].components@[j]).0.key@,
            ),
        forall|x: int| 0 <= x < r.len() ==> is_component_paint_view(ms, (#[trigger] r[x])@),
{
    let all = component_paints(ms);
    lemma_component_paints(ms);
    assert forall|i: int, j: int|
        0 <= i < ms.len() && 0 <= j < ms[i].components@.len() implies has_key(
        r,
        (#[trigger] ms[i].components@[j]).0.key@,
    ) by {
        let k = ms[i].components@[j].0.key@;
        assert(all.contains(ms[i].components@[j].0));
        let idx = choose|idx: int| 0 <= idx < all.len() && all[idx] == ms[i].components@[j].0;
        assert(all[idx].spec_key() == k);
        assert(has_key(all, k));
        lemma_first_views(all, k);
        lemma_view_map_domain(r, k);
    }
    assert forall|x: int| 0 <= x < r.len() implies is_component_paint_view(ms, (#[trigger] r[x])@) by {
        let k = r[x].spec_key();
        lemma_key_map_at(r, x);
        lemma_view_map_domain(r, k);
        assert(view_map(r)[k] == r[x]@);
        lemma_first_views(all, k);
        let idx = choose|idx: int|
            0 <= idx < all.len() && (#[trigger] all[idx]).spec_key() == k && first_views(all)[k]
                == all[idx]@;
        assert(is_component_paint(ms, all[idx]));
        let (i, j) = choose|i: int, j: int|
            0 <= i < ms.len() && 0 <= j < ms[i].components@.len() && (
            #[trigger] ms[i].components@[j]).0 == all[idx];
        assert(r[x]@ == ms[i].components@[j].0@);
    }
}

/// The mixtures made in one session of mixing, kept in order of their identifiers, with notes
/// on the session.
#[derive(Debug)]
pub struct MixingSession<C> {
    notes: String,
    mixtures: Vec<Mixture<C>>,
}

impl<C> MixingSession<C> {
    #[verifier::type_invariant]
    spec fn is_well_formed(&self) -> bool {
        sorted_by_key(self.mixtures@)
    }

    /// The notes on the session.
    pub closed spec fn spec_notes(&self) -> Seq<char> {
        self.notes@
    }

    /// The mixtures, in ascending order of their identifiers.
    pub closed spec fn spec_mixtures(&self) -> Seq<Mixture<C>> {
        self.mixtures@
    }

    pub fn new() -> (r: Self)
        ensures
            r.spec_notes() == Seq::<char>::empty(),
            r.spec_mixtures().len() == 0,
    {
        MixingSession { notes: String::new(), mixtures: Vec::new() }
    }

    pub fn notes(&self) -> (r: &str)
        ensures
            r@ == self.spec_notes(),
    {
        self.notes.as_str()
    }

    pub fn set_notes(&mut self, notes: &str)
        ensures
            final(self).spec_notes() == notes@,
            final(self).spec_mixtures() == old(self).spec_mixtures(),
    {
        proof {
            use_type_invariant(&*self);
        }
        self.notes = notes.to_owned();
    }

    /// The mixtures, in ascending order of their identifiers.
    pub fn mixtures(&self) -> (r: &[Mixture<C>])
        ensures
            r@ == self.spec_mixtures(),
            sorted_by_key(r@),
    {
        proof {
            use_type_invariant(self);
        }
        self.mixtures.as_slice()
    }

    /// Puts `mixture` in the session; a mixture with the same identifier is replaced and
    /// handed back.
    pub fn add_mixture(&mut self, mixture: Mixture<C>) -> (r: Option<Mixture<C>>)
        ensures
            sorted_by_key(final(self).spec_mixtures()),
            key_map(final(self).spec_mixtures()) == key_map(old(self).spec_mixtures()).insert(
                mixture.id@,
                mixture,
            ),
            final(self).spec_notes() == old(self).spec_notes(),
            match r {
                Some(m) => has_key(old(self).spec_mixtures(), mixture.id@) && m == key_map(
                    old(self).spec_mixtures(),
                )[mixture.id@],
                None => !has_key(old(self).spec_mixtures(), mixture.id@),
            },
    {
        proof {
            use_type_invariant(&*self);
        }
        let mut mixtures: Vec<Mixture<C>> = Vec::new();
        std::mem::swap(&mut mixtures, &mut self.mixtures);
        let r = add_by_key(&mut mixtures, mixture);
        self.mixtures = mixtures;
        r
    }

    /// The mixture with identifier `id`, if the session has one.
    pub fn mixture(&self, id: &str) -> (r: Option<&Mixture<C>>)
        ensures
            match r {
                Some(m) => has_key(self.spec_mixtures(), id@) && *m == key_map(
                    self.spec_mixtures(),
                )[id@],
                None => !has_key(self.spec_mixtures(), id@),
            },
    {
        proof {
            use_type_invariant(self);
        }
        get_by_key(&self.mixtures, id)
    }

    /// Whether no mixture's identifier comes after the next one's.
    pub fn is_sorted_unique(&self) -> (r: bool)
        ensures
            r == (forall|i: int|
                0 <= i < self.spec_mixtures().len() - 1 ==> !seq_lt(
                    #[trigger] self.spec_mixtures()[i + 1].id@,
                    self.spec_mixtures()[i].id@,
                )),
            r,
    {
        proof {
            use_type_invariant(self);
        }
        let n = self.mixtures.len();
        let mut i: usize = 0;
        while n > 0 && i < n - 1
            invariant
                n == self.mixtures@.len(),
                sorted_by_key(self.mixtures@),
                forall|j: int|
                    0 <= j < i && j < n - 1 ==> !seq_lt(
                        #[trigger] self.mixtures@[j + 1].id@,
                        self.mixtures@[j].id@,
                    ),
            decreases n - i,
        {
            if str_lt(self.mixtures[i + 1].id.as_str(), self.mixtures[i].id.as_str()) {
                proof {
                    assert(seq_lt(
                        self.mixtures@[i as int].spec_key(),
                        self.mixtures@[i + 1].spec_key(),
                    ));
                    crate::text::lemma_seq_lt_asymmetric(
                        self.mixtures@[i as int].id@,
                        self.mixtures@[i + 1].id@,
                    );
                }
                return false;
            }
            i += 1;
        }
        proof {
            assert forall|j: int|
                0 <= j < n - 1 implies !seq_lt(
                #[trigger] self.mixtures@[j + 1].id@,
                self.mixtures@[j].id@,
            ) by {
                assert(seq_lt(self.mixtures@[j].spec_key(), self.mixtures@[j + 1].spec_key()));
                crate::text::lemma_seq_lt_asymmetric(
                    self.mixtures@[j].id@,
                    self.mixtures@[j + 1].id@,
                );
            }
        }
        true
    }
}

impl<C: Copy> MixingSession<C> {
    /// Each paint used in the session's mixtures, once, in ascending key order; where several
    /// components share a key the first one met is taken.
    pub fn series_paints(&self) -> (r: Vec<RangePaint<C>>)
        ensures
            sorted_by_key(r@),
            view_map(r@) == first_views(component_paints(self.spec_mixtures())),
            forall|i: int, j: int|
                0 <= i < self.spec_mixtures().len() && 0 <= j
                    < self.spec_mixtures()[i].components@.len() ==> has_key(
                    r@,
                    (#[trigger] self.spec_mixtures()[i].components@[j]).0.key@,
                ),
            forall|x: int|
                0 <= x < r@.len() ==> is_component_paint_view(
                    self.spec_mixtures(),
                    (#[trigger] r@[x])@,
                ),
    {
        let ghost ms = self.mixtures@;
        let mut v: Vec<RangePaint<C>> = Vec::new();
        let mut i: usize = 0;
        assert(view_map(v@) =~= first_views(component_paints(ms.take(0))));
        while i < self.mixtures.len()
            invariant
                ms == self.mixtures@,
                i <= ms.len(),
                sorted_by_key(v@),
                view_map(v@) == first_views(component_paints(ms.take(i as int))),
            decreases ms.len() - i,
        {
            let components = &self.mixtures[i].components;
            let ghost done = component_paints(ms.take(i as int));
            let ghost these = components@.map_values(|c: (CollnPaint<C>, u64)| c.0);
            let mut j: usize = 0;
            assert(done + these.take(0) =~= done);
            while j < components.len()
                invariant
                    ms == self.mixtures@,
                    i < ms.len(),
                    components@ == ms[i as int].components@,
                    these == components@.map_values(|c: (CollnPaint<C>, u64)| c.0),
                    j <= components@.len(),
                    sorted_by_key(v@),
                    view_map(v@) == first_views(done + these.take(j as int)),
                decreases components@.len() - j,
            {
                let ghost before = v@;
                let paint = components[j].0.duplicate();
                let ghost s = done + these.take(j as int);
                assert((done + these.take(j + 1)).drop_last() =~= s);
                assert((done + these.take(j + 1)).last() == these[j as int]);
                proof {
                    lemma_view_map_domain(before, paint.spec_key());
                }
                add_if_absent(&mut v, paint);
                proof {
                    if !has_key(before, paint.spec_key()) {
                        assert(view_map(v@) =~= view_map(before).insert(paint.spec_key(), paint@));
                    }
                }
                j += 1;
            }
            assert(these.take(components@.len() as int) =~= these);
            assert(ms.take(i + 1).drop_last() =~= ms.take(i as int));
            assert(ms.take(i + 1).last() == ms[i as int]);
            i += 1;
        }
        assert(ms.take(ms.len() as int) =~= ms);
        proof {
            law_series_paints_cover_components(ms, v@);
        }
        v
    }
}

/// Gathers what a mixture is made of and builds it.
#[derive(Debug)]
pub struct MixtureBuilder<C> {
    id: String,
    name: String,
    notes: String,
    series_components: Vec<(RangePaint<C>, u64)>,
}

impl<C> MixtureBuilder<C> {
    pub closed spec fn spec_id(&self) -> Seq<char> {
        self.id@
    }

    pub closed spec fn spec_name(&self) -> Seq<char> {
        self.name@
    }

    pub closed spec fn spec_notes(&self) -> Seq<char> {
        self.notes@
    }

    /// The paints gathered so far, each with its number of parts.
    pub closed spec fn spec_components(&self) -> Seq<(RangePaint<C>, u64)> {
        self.series_components@
    }

    pub fn new(id: &str) -> (r: Self)
        ensures
            r.spec_id() == id@,
            r.spec_name() == Seq::<char>::empty(),
            r.spec_notes() == Seq::<char>::empty(),
            r.spec_components().len() == 0,
    {
        MixtureBuilder {
            id: id.to_owned(),
            name: String::new(),
            notes: String::new(),
            series_components: Vec::new(),
        }
    }

    pub fn id(&mut self, id: &str) -> (r: &mut Self)
        ensures
            r.spec_id() == id@,
            r.spec_name() == old(self).spec_name(),
            r.spec_notes() == old(self).spec_notes(),
            r.spec_components() == old(self).spec_components(),
            *final(self) == *final(r),
    {
        self.id = id.to_owned();
        self
    }

    pub fn name(&mut self, name: &str) -> (r: &mut Self)
        ensures
            r.spec_id() == old(self).spec_id(),
            r.spec_name() == name@,
            r.spec_notes() == old(self).spec_notes(),
            r.spec_components() == old(self).spec_components(),
            *final(self) == *final(r),
    {
        self.name = name.to_owned();
        self
    }

    pub fn notes(&mut self, notes: &str) -> (r: &mut Self)
        ensures
            r.spec_id() == old(self).spec_id(),
            r.spec_name() == old(self).spec_name(),
            r.spec_notes() == notes@,
            r.spec_components() == old(self).spec_components(),
            *final(self) == *final(r),
    {
        self.notes = notes.to_owned();
        self
    }

    /// Replaces the paints gathered so far by `components`.
    pub fn paint_components(&mut self, components: Vec<(RangePaint<C>, u64)>) -> (r: &mut Self)
        ensures
            r.spec_id() == old(self).spec_id(),
            r.spec_name() == old(self).spec_name(),
            r.spec_notes() == old(self).spec_notes(),
            r.spec_components() == components@,
            *final(self) == *final(r),
    {
        self.series_components = components;
        self
    }

    /// Adds one more paint, with its number of parts.
    pub fn paint_component(&mut self, component: (RangePaint<C>, u64)) -> (r: &mut Self)
        ensures
            r.spec_id() == old(self).spec_id(),
            r.spec_name() == old(self).spec_name(),
            r.spec_notes() == old(self).spec_notes(),
            r.spec_components() == old(self).spec_components().push(component),
            *final(self) == *final(r),
    {
        self.series_components.push(component);
        self
    }
}

/// The numbers of parts of a list of components.
pub open spec fn parts_of<C>(cs: Seq<(RangePaint<C>, u64)>) -> Seq<u64> {
    cs.map_values(|c: (RangePaint<C>, u64)| c.1)
}

/// The total number of parts of a list of components.
pub open spec fn sum_parts<C>(cs: Seq<(RangePaint<C>, u64)>) -> int
    decreases cs.len(),
{
    if cs.len() == 0 {
        0
    } else {
        sum_parts(cs.drop_last()) + cs.last().1
    }
}

/// The total number of parts once each is divided by `g`.
pub open spec fn total_adjusted<C>(cs: Seq<(RangePaint<C>, u64)>, g: int) -> int
    decreases cs.len(),
{
    if cs.len() == 0 {
        0
    } else {
        total_adjusted(cs.drop_last(), g) + (cs.last().1 as int) / g
    }
}

/// The sum, over the components, of the grade of their `k`-th property times their parts
/// divided by `g`.
pub open spec fn weighted_grade_sum<C>(cs: Seq<(RangePaint<C>, u64)>, k: int, g: int) -> int
    decreases cs.len(),
{
    if cs.len() == 0 {
        0
    } else {
        weighted_grade_sum(cs.drop_last(), k, g) + cs.last().0.paint.properties.0@[k].value * (
        (cs.last().1 as int) / g)
    }
}

/// The properties of the paint of component `i`.
pub open spec fn component_properties<C>(cs: Seq<(RangePaint<C>, u64)>, i: int) -> Seq<Property> {
    cs[i].0.paint.properties.0@
}

/// The mixed properties: for each property of the first component's paint, its type and the
/// rounded parts-weighted mean of the components' grades, parts divided by `g`.
pub open spec fn mixed_properties<C>(cs: Seq<(RangePaint<C>, u64)>, g: int) -> Seq<Property> {
    Seq::new(
        component_properties(cs, 0).len(),
        |k: int|
            Property {
                property_type: component_properties(cs, 0)[k].property_type,
                value: rounded_mean(weighted_grade_sum(cs, k, g), total_adjusted(cs, g)) as u64,
            },
    )
}

/// The components can be mixed: there is at least one, each has some parts, the parts add up
/// to at most `u64::MAX`, and all the paints have valid properties of the same types in the
/// same order.
pub open spec fn can_mix<C>(cs: Seq<(RangePaint<C>, u64)>) -> bool {
    &&& cs.len() > 0
    &&& forall|i: int| 0 <= i < cs.len() ==> (#[trigger] cs[i]).1 > 0
    &&& sum_parts(cs) <= u64::MAX
    &&& forall|i: int|
        0 <= i < cs.len() ==> compatible(
            #[trigger] component_properties(cs, i),
            component_properties(cs, 0),
        )
    &&& forall|i: int, k: int|
        0 <= i < cs.len() && 0 <= k < component_properties(cs, i).len() ==> (#[trigger] component_properties(
            cs,
            i,
        )[k]).is_valid()
}

proof fn lemma_sum_parts_prefix<C>(cs: Seq<(RangePaint<C>, u64)>, i: int)
    requires
        0 <= i <= cs.len(),
    ensures
        sum_parts(cs.take(i)) <= sum_parts(cs),
    decreases cs.len() - i,
{
    if i < cs.len() {
        lemma_sum_parts_prefix(cs, i + 1);
        assert(cs.take(i + 1).drop_last() =~= cs.take(i));
    } else {
        assert(cs.take(i) =~= cs);
    }
}

proof fn lemma_total_adjusted_bounded<C>(cs: Seq<(RangePaint<C>, u64)>, g: int)
    requires
        g >= 1,
    ensures
        0 <= total_adjusted(cs, g) <= sum_parts(cs),
    decreases cs.len(),
{
    if cs.len() > 0 {
        lemma_total_adjusted_bounded(cs.drop_last(), g);
        let p = cs.last().1 as int;
        assert(0 <= p / g <= p) by (nonlinear_arith)
            requires
                g >= 1,
                p >= 0,
        ;
    }
}

proof fn lemma_total_adjusted_positive<C>(cs: Seq<(RangePaint<C>, u64)>, g: int)
    requires
        g >= 1,
        cs.len() > 0,
        forall|i: int| 0 <= i < cs.len() ==> divides(g, (#[trigger] cs[i]).1 as int),
        forall|i: int| 0 <= i < cs.len() ==> (#[trigger] cs[i]).1 > 0,
    ensures
        total_adjusted(cs, g) >= 1,
    decreases cs.len(),
{
    let t = cs.drop_last();
    if t.len() > 0 {
        assert forall|i: int| 0 <= i < t.len() implies divides(g, (#[trigger] t[i]).1 as int) by {
            assert(t[i] == cs[i]);
        }
        assert forall|i: int| 0 <= i < t.len() implies (#[trigger] t[i]).1 > 0 by {
            assert(t[i] == cs[i]);
        }
        lemma_total_adjusted_positive(t, g);
    }
    lemma_total_adjusted_bounded(t, g);
    let p = cs.last().1 as int;
    assert(divides(g, cs[cs.len() - 1].1 as int));
    let k = choose|k: int| p == times(g, k);
    assert(p / g >= 1) by (nonlinear_arith)
        requires
            g >= 1,
            p >= 1,
            p == g * k,
    ;
}

/// Whether every property of `props` has a grade on its scale.
fn all_valid(props: &Vec<Property>) -> (r: bool)
    ensures
        r == (forall|k: int| 0 <= k < props@.len() ==> (#[trigger] props@[k]).is_valid()),
{
    let mut k: usize = 0;
    while k < props.len()
        invariant
            k <= props@.len(),
            forall|j: int| 0 <= j < k ==> (#[trigger] props@[j]).is_valid(),
        decreases props@.len() - k,
    {
        let count = str_values(&props[k].property_type).len() as u64;
        if props[k].value < 1 || props[k].value > count {
            assert(!props@[k as int].is_valid());
            return false;
        }
        k += 1;
    }
    true
}

impl<C> MixtureBuilder<C> {
    /// Whether the gathered components can be mixed (see `can_mix`): at least one, each with
    /// some parts, no more parts in all than a `u64` holds, and paints whose properties are
    /// valid and of the same types in the same order.
    pub fn can_build(&self) -> (r: bool)
        ensures
            r == can_mix(self.spec_components()),
    {
        let cs = &self.series_components;
        let ghost css = cs@;
        if cs.len() == 0 {
            return false;
        }
        let first = Properties::new(cs[0].0.paint.properties.0.as_slice());
        let mut sum: u64 = 0;
        let mut i: usize = 0;
        while i < cs.len()
            invariant
                css == cs@,
                css == self.spec_components(),
                css.len() > 0,
                first.0@ == component_properties(css, 0),
                i <= css.len(),
                sum == sum_parts(css.take(i as int)),
                forall|j: int| 0 <= j < i ==> (#[trigger] css[j]).1 > 0,
                forall|j: int|
                    0 <= j < i ==> compatible(
                        #[trigger] component_properties(css, j),
                        component_properties(css, 0),
                    ),
                forall|j: int, k: int|
                    0 <= j < i && 0 <= k < component_properties(css, j).len() ==> (#[trigger] component_properties(
                        css,
                        j,
                    )[k]).is_valid(),
            decreases css.len() - i,
        {
            let parts = cs[i].1;
            let props = &cs[i].0.paint.properties.0;
            assert(css.take(i + 1).drop_last() =~= css.take(i as int));
            assert(css.take(i + 1).last() == css[i as int]);
            if parts == 0 {
                assert(!can_mix(css)) by {
                    assert(!(css[i as int].1 > 0));
                }
                return false;
            }
            if !first.is_compatible(props.as_slice()) {
                assert(!can_mix(css)) by {
                    let a = component_properties(css, i as int);
                    let b = component_properties(css, 0);
                    assert(!compatible(b, a));
                    if compatible(a, b) {
                        assert forall|k: int| 0 <= k < b.len() implies #[trigger] b[k].property_type
                            == a[k].property_type by {
                            assert(a[k].property_type == b[k].property_type);
                        }
                    }
                }
                return false;
            }
            if !all_valid(props) {
                proof {
                    let k = choose|k: int| 0 <= k < props@.len() && !(#[trigger] props@[k]).is_valid();
                    assert(!component_properties(css, i as int)[k].is_valid());
                }
                return false;
            }
            match sum.checked_add(parts) {
                Some(next) => {
                    sum = next;
                },
                None => {
                    proof {
                        lemma_sum_parts_prefix(css, i + 1);
                    }
                    return false;
                },
            }
            i += 1;
        }
        assert(css.take(css.len() as int) =~= css);
        true
    }
}

impl<C: Copy> MixtureBuilder<C> {
    /// Each component's number of parts divided by the greatest common divisor of them all.
    pub fn adjusted_parts(&self) -> (r: Vec<u64>)
        requires
            can_mix(self.spec_components()),
        ensures
            r@.len() == self.spec_components().len(),
            forall|i: int|
                0 <= i < r@.len() ==> #[trigger] r@[i] == (self.spec_components()[i].1 as int) / (gcd_all(
                    parts_of(self.spec_components()),
                ) as int),
    {
        let cs = &self.series_components;
        let mut parts: Vec<u64> = Vec::new();
        let mut i: usize = 0;
        while i < cs.len()
            invariant
                i <= cs@.len(),
                parts@ =~= parts_of(cs@).take(i as int),
            decreases cs@.len() - i,
        {
            parts.push(cs[i].1);
            i += 1;
        }
        assert(parts@ =~= parts_of(cs@));
        let g = gcd_of(&parts);
        proof {
            lemma_gcd_all(parts@);
            assert(parts@[0] > 0);
        }
        let mut r: Vec<u64> = Vec::new();
        let mut j: usize = 0;
        while j < cs.len()
            invariant
                j <= cs@.len(),
                g > 0,
                g == gcd_all(parts_of(cs@)),
                r@.len() == j,
                forall|i: int| 0 <= i < j ==> #[trigger] r@[i] == (cs@[i].1 as int) / (g as int),
            decreases cs@.len() - j,
        {
            r.push(cs[j].1 / g);
            j += 1;
        }
        r
    }

    /// What the mixture's colour is mixed from: each component's paint colour with its number
    /// of parts in lowest terms, in order.
    pub fn colour_inputs(&self) -> (r: Vec<(C, u64)>)
        requires
            can_mix(self.spec_components()),
        ensures
            r@.len() == self.spec_components().len(),
            forall|i: int|
                0 <= i < r@.len() ==> #[trigger] r@[i] == (
                    self.spec_components()[i].0.paint.colour,
                    ((self.spec_components()[i].1 as int) / (gcd_all(
                        parts_of(self.spec_components()),
                    ) as int)) as u64,
                ),
    {
        let adjusted = self.adjusted_parts();
        let cs = &self.series_components;
        let mut r: Vec<(C, u64)> = Vec::new();
        let mut i: usize = 0;
        while i < cs.len()
            invariant
                cs@ == self.spec_components(),
                adjusted@.len() == cs@.len(),
                forall|j: int|
                    0 <= j < cs@.len() ==> #[trigger] adjusted@[j] == (cs@[j].1 as int) / (gcd_all(
                        parts_of(cs@),
                    ) as int),
                i <= cs@.len(),
                r@.len() == i,
                forall|j: int|
                    0 <= j < i ==> #[trigger] r@[j] == (
                        cs@[j].0.paint.colour,
                        ((cs@[j].1 as int) / (gcd_all(parts_of(cs@)) as int)) as u64,
                    ),
            decreases cs@.len() - i,
        {
            r.push((cs[i].0.colour(), adjusted[i]));
            i += 1;
        }
        r
    }

    /// Builds the mixture of colour `colour`: its parts are brought to lowest terms and its
    /// properties mixed from the components' paints.
    pub fn build(&self, colour: C) -> (r: Mixture<C>)
        requires
            can_mix(self.spec_components()),
        ensures
            ({
                let cs = self.spec_components();
                let g = gcd_all(parts_of(cs)) as int;
                &&& g > 0
                &&& r.id@ == self.spec_id()
                &&& r.name@ == self.spec_name()
                &&& r.notes@ == self.spec_notes()
                &&& r.colour == colour
                &&& r.components@.len() == cs.len()
                &&& forall|i: int|
                    0 <= i < cs.len() ==> (#[trigger] r.components@[i]).0@ == cs[i].0@
                        && r.components@[i].1 == (cs[i].1 as int) / g
                &&& r.properties.0@ == mixed_properties(cs, g)
                &&& forall|k: int| 0 <= k < r.properties.0@.len() ==> (#[trigger] r.properties.0@[k]).is_valid()
                &&& r.properties.0@.len() == cs[0].0.paint.properties.0@.len()
                &&& forall|k: int|
                    0 <= k < r.properties.0@.len() ==> {
                        let s = Seq::new(
                            cs.len(),
                            |i: int| cs[i].0.paint.properties.0@[k].value * ((cs[i].1 as int) / g),
                        ).fold_left(0int, |a: int, x: int| a + x);
                        let t = Seq::new(cs.len(), |i: int| (cs[i].1 as int) / g).fold_left(
                            0int,
                            |a: int, x: int| a + x,
                        );
                        &&& (#[trigger] r.properties.0@[k]).property_type
                            == cs[0].0.paint.properties.0@[k].property_type
                        &&& r.properties.0@[k].value == (2 * s + t) / (2 * t)
                    }
            }),
    {
        let cs = &self.series_components;
        let ghost css = cs@;
        let adjusted = self.adjusted_parts();
        let ghost g = gcd_all(parts_of(css)) as int;
        proof {
            lemma_gcd_all(parts_of(css));
            assert(parts_of(css)[0] > 0);
            assert forall|i: int| 0 <= i < css.len() implies divides(g, (#[trigger] css[i]).1 as int) by {
                assert(parts_of(css)[i] == css[i].1);
            }
            lemma_total_adjusted_positive(css, g);
            lemma_total_adjusted_bounded(css, g);
        }
        let mut components: Vec<(RangePaint<C>, u64)> = Vec::new();
        let mut i: usize = 0;
        while i < cs.len()
            invariant
                css == cs@,
                adjusted@.len() == css.len(),
                forall|j: int| 0 <= j < css.len() ==> #[trigger] adjusted@[j] == (css[j].1 as int) / g,
                i <= css.len(),
                components@.len() == i,
                forall|j: int|
                    0 <= j < i ==> (#[trigger] components@[j]).0@ == css[j].0@ && components@[j].1
                        == (css[j].1 as int) / g,
            decreases css.len() - i,
        {
            components.push((cs[i].0.duplicate(), adjusted[i]));
            i += 1;
        }
        let first = &cs[0].0.paint.properties.0;
        let mut properties: Vec<Property> = Vec::new();
        let mut k: usize = 0;
        while k < first.len()
            invariant
                css == cs@,
                can_mix(css),
                g >= 1,
                first@ == component_properties(css, 0),
                adjusted@.len() == css.len(),
                forall|j: int| 0 <= j < css.len() ==> #[trigger] adjusted@[j] == (css[j].1 as int) / g,
                total_adjusted(css, g) >= 1,
                total_adjusted(css, g) <= sum_parts(css),
                k <= first@.len(),
                properties@.len() == k,
                forall|j: int| 0 <= j < k ==> #[trigger] properties@[j] == mixed_properties(css, g)[j],
                forall|j: int| 0 <= j < k ==> (#[trigger] properties@[j]).is_valid(),
            decreases first@.len() - k,
        {
            let mut mixer = PropertyMixer::new(first[k].property_type);
            let mut i: usize = 0;
            while i < cs.len()
                invariant
                    css == cs@,
                    can_mix(css),
                    g >= 1,
                    first@ == component_properties(css, 0),
                    k < first@.len(),
                    adjusted@.len() == css.len(),
                    forall|j: int| 0 <= j < css.len() ==> #[trigger] adjusted@[j] == (css[j].1 as int) / g,
                    i <= css.len(),
                    mixer.property_type == first@[k as int].property_type,
                    mixer.is_consistent(),
                    mixer.sum == weighted_grade_sum(css.take(i as int), k as int, g),
                    mixer.total_parts == total_adjusted(css.take(i as int), g),
                decreases css.len() - i,
            {
                let ghost t = css.take(i + 1);
                assert(t.drop_last() =~= css.take(i as int));
                assert(t.last() == css[i as int]);
                proof {
                    lemma_total_adjusted_bounded(t, g);
                    lemma_sum_parts_prefix(css, i + 1);
                    assert(compatible(component_properties(css, i as int), component_properties(css, 0)));
                    assert(component_properties(css, i as int)[k as int].property_type
                        == component_properties(css, 0)[k as int].property_type);
                    assert(component_properties(css, i as int)[k as int].is_valid());
                }
                let props = &cs[i].0.paint.properties.0;
                mixer.add(&props[k], adjusted[i]);
                i += 1;
            }
            assert(css.take(css.len() as int) =~= css);
            let p = mixer.mixed_property();
            properties.push(p);
            k += 1;
        }
        assert(properties@ =~= mixed_properties(css, g));
        proof {
            assert forall|k: int| 0 <= k < properties@.len() implies {
                let s = Seq::new(
                    css.len(),
                    |i: int| css[i].0.paint.properties.0@[k].value * ((css[i].1 as int) / g),
                ).fold_left(0int, |a: int, x: int| a + x);
                let t = Seq::new(css.len(), |i: int| (css[i].1 as int) / g).fold_left(
                    0int,
                    |a: int, x: int| a + x,
                );
                &&& (#[trigger] properties@[k]).property_type
                    == css[0].0.paint.properties.0@[k].property_type
                &&& properties@[k].value == (2 * s + t) / (2 * t)
            } by {
                law_mixed_grade_is_weighted_mean(css, k);
            }
        }
        Mixture {
            id: self.id.clone(),
            colour,
            name: self.name.clone(),
            notes: self.notes.clone(),
            properties: Properties(properties),
            components,
        }
    }
}

/// Building a mixture keeps the proportions of its parts and brings them to lowest terms:
/// each adjusted number of parts times the common divisor gives the number given, and the
/// only positive number that divides every adjusted number of parts is 1.
pub proof fn law_parts_in_lowest_terms(parts: Seq<u64>, d: int)
    requires
        parts.len() > 0,
        forall|i: int| 0 <= i < parts.len() ==> #[trigger] parts[i] > 0,
    ensures
        gcd_all(parts) > 0,
        forall|i: int|
            0 <= i < parts.len() ==> ((#[trigger] parts[i] as int) / (gcd_all(parts) as int)) * (gcd_all(parts) as int)
                == parts[i],
        d > 0 && (forall|i: int|
            0 <= i < parts.len() ==> divides(d, #[trigger] (parts[i] as int) / (gcd_all(parts) as int)))
            ==> d == 1,
{
    lemma_gcd_all(parts);
    assert(parts[0] > 0);
    let g = gcd_all(parts) as int;
    assert forall|i: int| 0 <= i < parts.len() implies ((#[trigger] parts[i] as int) / (gcd_all(parts) as int)) * (gcd_all(parts) as int)
        == parts[i] by {
        assert(divides(g, parts[i] as int));
        let k = choose|k: int| parts[i] as int == times(g, k);
        let p = parts[i] as int;
        assert(p / g * g == p) by (nonlinear_arith)
            requires
                g > 0,
                p == g * k,
        ;
    }
    if d > 0 && (forall|i: int|
        0 <= i < parts.len() ==> divides(d, #[trigger] (parts[i] as int) / (gcd_all(parts) as int))) {
        assert forall|i: int| 0 <= i < parts.len() implies divides(d * g, #[trigger] parts[i] as int) by {
            assert(divides(d, (parts[i] as int) / (gcd_all(parts) as int)));
            let k = choose|k: int| (parts[i] as int) / (gcd_all(parts) as int) == times(d, k);
            let p = parts[i] as int;
            assert(p / g * g == p);
            assert(p == (d * g) * k) by (nonlinear_arith)
                requires
                    p / g * g == p,
                    p / g == d * k,
            ;
            assert(p == times(d * g, k));
        }
        let dg = d * g;
        assert(divides(dg, g));
        let k = choose|k: int| g == times(dg, k);
        assert(d == 1) by (nonlinear_arith)
            requires
                g > 0,
                d > 0,
                dg == d * g,
                g == dg * k,
        ;
    }
}


/// The parts-weighted sum of the grades of property `k` over the components, written as a fold
/// of the products `grade * (parts / g)`, component by component.
proof fn lemma_weighted_fold<C>(cs: Seq<(RangePaint<C>, u64)>, k: int, g: int)
    ensures
        weighted_grade_sum(cs, k, g) == Seq::new(
            cs.len(),
            |i: int| cs[i].0.paint.properties.0@[k].value * ((cs[i].1 as int) / g),
        ).fold_left(0int, |a: int, x: int| a + x),
        total_adjusted(cs, g) == Seq::new(cs.len(), |i: int| (cs[i].1 as int) / g).fold_left(
            0int,
            |a: int, x: int| a + x,
        ),
    decreases cs.len(),
{
    let w = Seq::new(
        cs.len(),
        |i: int| cs[i].0.paint.properties.0@[k].value * ((cs[i].1 as int) / g),
    );
    let p = Seq::new(cs.len(), |i: int| (cs[i].1 as int) / g);
    if cs.len() > 0 {
        let t = cs.drop_last();
        lemma_weighted_fold(t, k, g);
        assert(w.drop_last() =~= Seq::new(
            t.len(),
            |i: int| t[i].0.paint.properties.0@[k].value * ((t[i].1 as int) / g),
        ));
        assert(p.drop_last() =~= Seq::new(t.len(), |i: int| (t[i].1 as int) / g));
    } else {
        assert(w.len() == 0);
        assert(p.len() == 0);
    }
}

/// Rounding `s / t` to the nearest integer, halves up, is `(2 * s + t) / (2 * t)`.
proof fn lemma_rounded_mean_formula(s: int, t: int)
    requires
        s >= 0,
        t > 0,
    ensures
        rounded_mean(s, t) == (2 * s + t) / (2 * t),
{
    let q = s / t;
    let r = s % t;
    vstd::arithmetic::div_mod::lemma_fundamental_div_mod(s, t);
    assert(0 <= r < t);
    let up: int = if 2 * r >= t {
        1
    } else {
        0
    };
    assert(2 * s + t == (q + up) * (2 * t) + (2 * r + t - 2 * t * up)) by (nonlinear_arith)
        requires
            s == t * q + r,
    ;
    assert(0 <= 2 * r + t - 2 * t * up < 2 * t);
    vstd::arithmetic::div_mod::lemma_fundamental_div_mod_converse(
        2 * s + t,
        2 * t,
        q + up,
        2 * r + t - 2 * t * up,
    );
}

/// No property scale has more than five grades.
proof fn lemma_count_at_most_five(t: PropertyType)
    ensures
        t.spec_count() <= 5,
{
    match t {
        PropertyType::Transparency => {},
        PropertyType::Lightfastness => {},
        PropertyType::Staining => {},
        PropertyType::Finish => {},
        PropertyType::Opacity => {},
        PropertyType::Permanence => {},
        PropertyType::Luminescence => {},
        PropertyType::Fluorescence => {},
        PropertyType::Metallicness => {},
        PropertyType::Granulation => {},
    }
}

/// The weighted grade sum lies between zero and five times the total of the adjusted parts.
proof fn lemma_weighted_grade_sum_bounds<C>(cs: Seq<(RangePaint<C>, u64)>, k: int, g: int)
    requires
        g >= 1,
        forall|i: int|
            0 <= i < cs.len() ==> (#[trigger] component_properties(cs, i))[k].value <= 5,
    ensures
        0 <= weighted_grade_sum(cs, k, g) <= 5 * total_adjusted(cs, g),
    decreases cs.len(),
{
    if cs.len() > 0 {
        let t = cs.drop_last();
        assert forall|i: int| 0 <= i < t.len() implies (#[trigger] component_properties(t, i))[k].value <= 5 by {
            assert(component_properties(t, i) == component_properties(cs, i));
        }
        lemma_weighted_grade_sum_bounds(t, k, g);
        assert(component_properties(cs, cs.len() - 1)[k].value <= 5);
        let v = cs.last().0.paint.properties.0@[k].value as int;
        let a = (cs.last().1 as int) / g;
        assert(a >= 0);
        assert(0 <= v * a <= 5 * a) by (nonlinear_arith)
            requires
                0 <= v <= 5,
                a >= 0,
        ;
    }
}

/// The mixed grade of property `k`, as the rounded quotient of the weighted grade sum and the
/// total of the adjusted parts.
proof fn lemma_mixed_value<C>(cs: Seq<(RangePaint<C>, u64)>, k: int)
    requires
        can_mix(cs),
        0 <= k < component_properties(cs, 0).len(),
    ensures
        ({
            let g = gcd_all(parts_of(cs)) as int;
            let s = weighted_grade_sum(cs, k, g);
            let t = total_adjusted(cs, g);
            &&& g > 0
            &&& t > 0
            &&& mixed_properties(cs, g)[k].property_type == cs[0].0.paint.properties.0@[k].property_type
            &&& mixed_properties(cs, g)[k].value == (2 * s + t) / (2 * t)
        }),
{
    let g = gcd_all(parts_of(cs)) as int;
    lemma_gcd_all(parts_of(cs));
    assert(parts_of(cs)[0] > 0);
    assert forall|i: int| 0 <= i < cs.len() implies divides(g, (#[trigger] cs[i]).1 as int) by {
        assert(parts_of(cs)[i] == cs[i].1);
    }
    lemma_total_adjusted_positive(cs, g);
    assert forall|i: int|
        0 <= i < cs.len() implies (#[trigger] component_properties(cs, i))[k].value <= 5 by {
        assert(compatible(component_properties(cs, i), component_properties(cs, 0)));
        assert(component_properties(cs, i)[k].is_valid());
        lemma_count_at_most_five(component_properties(cs, i)[k].property_type);
    }
    lemma_weighted_grade_sum_bounds(cs, k, g);
    let s = weighted_grade_sum(cs, k, g);
    let t = total_adjusted(cs, g);
    lemma_rounded_mean_formula(s, t);
    assert(0 <= (2 * s + t) / (2 * t) <= 6) by (nonlinear_arith)
        requires
            0 <= s <= 5 * t,
            t > 0,
    ;
}

/// A mixed grade is the parts-weighted mean of the components' grades, rounded to the nearest
/// grade (halves up): with each component's parts divided by the greatest common divisor of
/// all the parts, the grade of property `k` is `(2 * S + T) / (2 * T)`, where `S` adds up
/// `grade * parts` and `T` adds up the parts over all the components.
pub proof fn law_mixed_grade_is_weighted_mean<C>(cs: Seq<(RangePaint<C>, u64)>, k: int)
    requires
        can_mix(cs),
        0 <= k < component_properties(cs, 0).len(),
    ensures
        ({
            let g = gcd_all(parts_of(cs)) as int;
            let s = Seq::new(
                cs.len(),
                |i: int| cs[i].0.paint.properties.0@[k].value * ((cs[i].1 as int) / g),
            ).fold_left(0int, |a: int, x: int| a + x);
            let t = Seq::new(cs.len(), |i: int| (cs[i].1 as int) / g).fold_left(
                0int,
                |a: int, x: int| a + x,
            );
            &&& g > 0
            &&& t > 0
            &&& mixed_properties(cs, g)[k].property_type == cs[0].0.paint.properties.0@[k].property_type
            &&& mixed_properties(cs, g)[k].value == (2 * s + t) / (2 * t)
        }),
{
    let g = gcd_all(parts_of(cs)) as int;
    lemma_mixed_value(cs, k);
    lemma_weighted_fold(cs, k, g);
}

/// Mixing two paints: with grades `a` and `b` of property `k` and parts `p` and `q` in lowest
/// terms, the mixed grade is `(a * p + b * q) / (p + q)` rounded to the nearest grade (halves
/// up), that is `(2 * (a * p + b * q) + (p + q)) / (2 * (p + q))`.
pub proof fn law_two_paint_mixture<C>(cs: Seq<(RangePaint<C>, u64)>, k: int)
    requires
        can_mix(cs),
        cs.len() == 2,
        0 <= k < component_properties(cs, 0).len(),
    ensures
        ({
            let g = gcd_all(parts_of(cs)) as int;
            let a = cs[0].0.paint.properties.0@[k].value as int;
            let b = cs[1].0.paint.properties.0@[k].value as int;
            let p = (cs[0].1 as int) / g;
            let q = (cs[1].1 as int) / g;
            &&& g > 0
            &&& mixed_properties(cs, g)[k].value == (2 * (a * p + b * q) + (p + q)) / (2 * (p + q))
        }),
{
    let g = gcd_all(parts_of(cs)) as int;
    lemma_mixed_value(cs, k);
    let t = cs.drop_last();
    assert(t.len() == 1);
    assert(t.drop_last().len() == 0);
    assert(t.last() == cs[0]);
    assert(cs.last() == cs[1]);
    assert(weighted_grade_sum(t.drop_last(), k, g) == 0);
    assert(total_adjusted(t.drop_last(), g) == 0);
    let a = cs[0].0.paint.properties.0@[k].value as int;
    let b = cs[1].0.paint.properties.0@[k].value as int;
    let p = (cs[0].1 as int) / g;
    let q = (cs[1].1 as int) / g;
    assert(weighted_grade_sum(t, k, g) == a * p);
    assert(total_adjusted(t, g) == p);
    assert(weighted_grade_sum(cs, k, g) == a * p + b * q);
    assert(total_adjusted(cs, g) == p + q);
}

proof fn lemma_uniform_grade_sum<C>(cs: Seq<(RangePaint<C>, u64)>, k: int, g: int, v: int)
    requires
        g >= 1,
        forall|i: int| 0 <= i < cs.len() ==> (#[trigger] component_properties(cs, i))[k].value == v,
    ensures
        weighted_grade_sum(cs, k, g) == v * total_adjusted(cs, g),
    decreases cs.len(),
{
    if cs.len() > 0 {
        let t = cs.drop_last();
        assert forall|i: int| 0 <= i < t.len() implies (#[trigger] component_properties(t, i))[k].value == v by {
            assert(t[i] == cs[i]);
            assert(component_properties(t, i) == component_properties(cs, i));
            assert(component_properties(cs, i)[k].value == v);
        }
        lemma_uniform_grade_sum(t, k, g, v);
        assert(component_properties(cs, cs.len() - 1)[k].value == v);
        let a = (cs.last().1 as int) / g;
        let ta = total_adjusted(t, g);
        assert(v * ta + v * a == v * (ta + a)) by (nonlinear_arith);
    }
}

/// Mixing paints that all have the same grade of a property gives that grade, whatever their
/// parts.
pub proof fn law_mixing_keeps_a_common_grade<C>(cs: Seq<(RangePaint<C>, u64)>, k: int, v: int)
    requires
        can_mix(cs),
        0 <= k < component_properties(cs, 0).len(),
        forall|i: int| 0 <= i < cs.len() ==> (#[trigger] component_properties(cs, i))[k].value == v,
    ensures
        mixed_properties(cs, gcd_all(parts_of(cs)) as int)[k].value == v,
{
    let g = gcd_all(parts_of(cs)) as int;
    lemma_gcd_all(parts_of(cs));
    assert(parts_of(cs)[0] > 0);
    assert forall|i: int| 0 <= i < cs.len() implies divides(g, (#[trigger] cs[i]).1 as int) by {
        assert(parts_of(cs)[i] == cs[i].1);
    }
    lemma_total_adjusted_positive(cs, g);
    lemma_uniform_grade_sum(cs, k, g, v);
    let t = total_adjusted(cs, g);
    assert(component_properties(cs, 0)[k].is_valid());
    assert(0 <= v <= 5) by {
        assert(component_properties(cs, 0)[k].value == v);
    }
    assert(rounded_mean(v * t, t) == v) by (nonlinear_arith)
        requires
            t >= 1,
    {
        assert((v * t) / t == v);
        assert((v * t) % t == 0);
    }
}

} // verus!
