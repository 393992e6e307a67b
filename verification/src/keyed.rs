//! Lists kept in strictly ascending order of their items' text keys, so that no key occurs
//! twice and each key can be looked up by binary search.

use vstd::prelude::*;

use crate::text::{
    lemma_seq_lt_asymmetric, lemma_seq_lt_irreflexive, lemma_seq_lt_total,
    lemma_seq_lt_transitive, seq_lt, str_eq, str_lt,
};

verus! {

/// An item that is looked up by a text key.
pub trait KeyedItem: Sized + View {
    spec fn spec_key(&self) -> Seq<char>;

    fn item_key(&self) -> (r: &str)
        ensures
            r@ == self.spec_key(),
    ;
}

/// The items' keys strictly ascend.
pub open spec fn sorted_by_key<T: KeyedItem>(s: Seq<T>) -> bool {
    forall|i: int, j: int|
        0 <= i < j < s.len() ==> seq_lt(#[trigger] s[i].spec_key(), #[trigger] s[j].spec_key())
}

/// Some item has key `k`.
pub open spec fn has_key<T: KeyedItem>(s: Seq<T>, k: Seq<char>) -> bool {
    exists|i: int| 0 <= i < s.len() && (#[trigger] s[i]).spec_key() == k
}

/// The position of an item with key `k`.
pub open spec fn index_of_key<T: KeyedItem>(s: Seq<T>, k: Seq<char>) -> int {
    choose|i: int| 0 <= i < s.len() && (#[trigger] s[i]).spec_key() == k
}

/// The items as a map from their keys.
pub open spec fn key_map<T: KeyedItem>(s: Seq<T>) -> Map<Seq<char>, T> {
    Map::new(|k: Seq<char>| has_key(s, k), |k: Seq<char>| s[index_of_key(s, k)])
}

/// In a sorted list two positions with the same key are the same position.
pub proof fn lemma_key_unique<T: KeyedItem>(s: Seq<T>, i: int, j: int)
    requires
        sorted_by_key(s),
        0 <= i < s.len(),
        0 <= j < s.len(),
        s[i].spec_key() == s[j].spec_key(),
    ensures
        i == j,
{
    if i < j {
        assert(seq_lt(s[i].spec_key(), s[j].spec_key()));
        lemma_seq_lt_irreflexive(s[i].spec_key());
    } else if j < i {
        assert(seq_lt(s[j].spec_key(), s[i].spec_key()));
        lemma_seq_lt_irreflexive(s[i].spec_key());
    }
}

/// In a sorted list the item at position `i` is the map's value at its key.
pub proof fn lemma_key_map_at<T: KeyedItem>(s: Seq<T>, i: int)
    requires
        sorted_by_key(s),
        0 <= i < s.len(),
    ensures
        has_key(s, s[i].spec_key()),
        index_of_key(s, s[i].spec_key()) == i,
        key_map(s).contains_key(s[i].spec_key()),
        key_map(s)[s[i].spec_key()] == s[i],
{
    let k = s[i].spec_key();
    assert(has_key(s, k));
    let j = index_of_key(s, k);
    lemma_key_unique(s, i, j);
}

/// Looks `key` up by binary search: where it is, or where it would go.
pub fn search_by_key<T: KeyedItem>(v: &Vec<T>, key: &str) -> (r: Result<usize, usize>)
    requires
        sorted_by_key(v@),
    ensures
        match r {
            Ok(i) => i < v@.len() && v@[i as int].spec_key() == key@,
            Err(i) => i <= v@.len() && (forall|j: int|
                0 <= j < i ==> seq_lt(#[trigger] v@[j].spec_key(), key@)) && (forall|j: int|
                i <= j < v@.len() ==> seq_lt(key@, #[trigger] v@[j].spec_key())),
        },
{
    let mut lo: usize = 0;
    let mut hi: usize = v.len();
    while lo < hi
        invariant
            lo <= hi <= v@.len(),
            sorted_by_key(v@),
            forall|j: int| 0 <= j < lo ==> seq_lt(#[trigger] v@[j].spec_key(), key@),
            forall|j: int| hi <= j < v@.len() ==> seq_lt(key@, #[trigger] v@[j].spec_key()),
        decreases hi - lo,
    {
        let mid = lo + (hi - lo) / 2;
        let mid_key = v[mid].item_key();
        if str_eq(mid_key, key) {
            return Ok(mid);
        }
        if str_lt(mid_key, key) {
            assert forall|j: int| 0 <= j < mid + 1 implies seq_lt(#[trigger] v@[j].spec_key(), key@) by {
                if j < mid {
                    assert(seq_lt(v@[j].spec_key(), v@[mid as int].spec_key()));
                    lemma_seq_lt_transitive(v@[j].spec_key(), v@[mid as int].spec_key(), key@);
                }
            }
            lo = mid + 1;
        } else {
            proof {
                lemma_seq_lt_total(mid_key@, key@);
            }
            assert forall|j: int| mid <= j < v@.len() implies seq_lt(key@, #[trigger] v@[j].spec_key()) by {
                if j > mid && j < hi {
                    assert(seq_lt(v@[mid as int].spec_key(), v@[j].spec_key()));
                    lemma_seq_lt_transitive(key@, v@[mid as int].spec_key(), v@[j].spec_key());
                }
            }
            hi = mid;
        }
    }
    Err(lo)
}

/// The item with key `key`, if there is one.
pub fn get_by_key<'a, T: KeyedItem>(v: &'a Vec<T>, key: &str) -> (r: Option<&'a T>)
    requires
        sorted_by_key(v@),
    ensures
        match r {
            Some(x) => has_key(v@, key@) && *x == key_map(v@)[key@],
            None => !has_key(v@, key@),
        },
{
    match search_by_key(v, key) {
        Ok(i) => {
            proof {
                lemma_key_map_at(v@, i as int);
            }
            Some(&v[i])
        },
        Err(i) => {
            proof {
                if has_key(v@, key@) {
                    let j = choose|j: int| 0 <= j < v@.len() && (#[trigger] v@[j]).spec_key() == key@;
                    if j < i {
                        lemma_seq_lt_irreflexive(key@);
                    } else {
                        lemma_seq_lt_irreflexive(key@);
                    }
                }
            }
            None
        },
    }
}

/// Replacing the item at a position by one with the same key keeps the list sorted and
/// updates the map at that key only.
proof fn lemma_replace_at<T: KeyedItem>(old: Seq<T>, i: int, item: T)
    requires
        sorted_by_key(old),
        0 <= i < old.len(),
        old[i].spec_key() == item.spec_key(),
    ensures
        sorted_by_key(old.update(i, item)),
        key_map(old.update(i, item)) == key_map(old).insert(item.spec_key(), item),
{
    let new = old.update(i, item);
    let k = item.spec_key();
    assert forall|a: int, b: int| 0 <= a < b < new.len() implies seq_lt(
        #[trigger] new[a].spec_key(),
        #[trigger] new[b].spec_key(),
    ) by {
        assert(new[a].spec_key() == old[a].spec_key());
        assert(new[b].spec_key() == old[b].spec_key());
        assert(seq_lt(old[a].spec_key(), old[b].spec_key()));
    }
    assert forall|k2: Seq<char>| #[trigger] has_key(new, k2) == (has_key(old, k2) || k2 == k) by {
        if has_key(new, k2) {
            let j = choose|j: int| 0 <= j < new.len() && (#[trigger] new[j]).spec_key() == k2;
            assert(old[j].spec_key() == k2);
        }
        if has_key(old, k2) {
            let j = choose|j: int| 0 <= j < old.len() && (#[trigger] old[j]).spec_key() == k2;
            assert(new[j].spec_key() == k2);
        }
        if k2 == k {
            assert(new[i].spec_key() == k2);
        }
    }
    assert forall|k2: Seq<char>| #[trigger] key_map(new).contains_key(k2) implies key_map(new)[k2]
        == key_map(old).insert(k, item)[k2] by {
        let j = index_of_key(new, k2);
        lemma_key_map_at(new, j);
        if k2 == k {
            lemma_key_unique(new, i, j);
        } else {
            assert(j != i);
            assert(old[j] == new[j]);
            lemma_key_map_at(old, j);
        }
    }
    assert(key_map(new) =~= key_map(old).insert(k, item));
}

/// Inserting an item at the place its key belongs keeps the list sorted and adds the item to
/// the map.
proof fn lemma_insert_at<T: KeyedItem>(old: Seq<T>, i: int, item: T)
    requires
        sorted_by_key(old),
        0 <= i <= old.len(),
        forall|j: int| 0 <= j < i ==> seq_lt(#[trigger] old[j].spec_key(), item.spec_key()),
        forall|j: int| i <= j < old.len() ==> seq_lt(item.spec_key(), #[trigger] old[j].spec_key()),
    ensures
        sorted_by_key(old.insert(i, item)),
        key_map(old.insert(i, item)) == key_map(old).insert(item.spec_key(), item),
        !has_key(old, item.spec_key()),
{
    let new = old.insert(i, item);
    let k = item.spec_key();
    assert forall|a: int, b: int| 0 <= a < b < new.len() implies seq_lt(
        #[trigger] new[a].spec_key(),
        #[trigger] new[b].spec_key(),
    ) by {
        if b < i {
            assert(seq_lt(old[a].spec_key(), old[b].spec_key()));
        } else if b == i {
            assert(seq_lt(old[a].spec_key(), k));
        } else if a < i {
            assert(new[b] == old[b - 1]);
            assert(seq_lt(old[a].spec_key(), k));
            assert(seq_lt(k, old[b - 1].spec_key()));
            lemma_seq_lt_transitive(old[a].spec_key(), k, old[b - 1].spec_key());
        } else if a == i {
            assert(new[b] == old[b - 1]);
        } else {
            assert(new[a] == old[a - 1]);
            assert(new[b] == old[b - 1]);
            assert(seq_lt(old[a - 1].spec_key(), old[b - 1].spec_key()));
        }
    }
    if has_key(old, k) {
        let j = choose|j: int| 0 <= j < old.len() && (#[trigger] old[j]).spec_key() == k;
        lemma_seq_lt_irreflexive(k);
        if j < i {
            assert(seq_lt(old[j].spec_key(), k));
        } else {
            assert(seq_lt(k, old[j].spec_key()));
        }
    }
    assert forall|k2: Seq<char>| #[trigger] has_key(new, k2) == (has_key(old, k2) || k2 == k) by {
        if has_key(new, k2) {
            let j = choose|j: int| 0 <= j < new.len() && (#[trigger] new[j]).spec_key() == k2;
            if j < i {
                assert(old[j].spec_key() == k2);
            } else if j > i {
                assert(old[j - 1].spec_key() == k2);
            }
        }
        if has_key(old, k2) {
            let j = choose|j: int| 0 <= j < old.len() && (#[trigger] old[j]).spec_key() == k2;
            if j < i {
                assert(new[j].spec_key() == k2);
            } else {
                assert(new[j + 1].spec_key() == k2);
            }
        }
        if k2 == k {
            assert(new[i].spec_key() == k2);
        }
    }
    assert forall|k2: Seq<char>| #[trigger] key_map(new).contains_key(k2) implies key_map(new)[k2]
        == key_map(old).insert(k, item)[k2] by {
        let j = index_of_key(new, k2);
        lemma_key_map_at(new, j);
        if k2 == k {
            assert(new[i].spec_key() == k);
            lemma_key_unique(new, i, j);
        } else if j < i {
            assert(old[j] == new[j]);
            lemma_key_map_at(old, j);
        } else {
            assert(j != i);
            assert(old[j - 1] == new[j]);
            lemma_key_map_at(old, j - 1);
        }
    }
    assert(key_map(new) =~= key_map(old).insert(k, item));
}

/// Removing the item at a position keeps the list sorted and removes its key from the map.
proof fn lemma_remove_at<T: KeyedItem>(old: Seq<T>, i: int)
    requires
        sorted_by_key(old),
        0 <= i < old.len(),
    ensures
        sorted_by_key(old.remove(i)),
        key_map(old.remove(i)) == key_map(old).remove(old[i].spec_key()),
{
    let new = old.remove(i);
    let k = old[i].spec_key();
    assert forall|a: int, b: int| 0 <= a < b < new.len() implies seq_lt(
        #[trigger] new[a].spec_key(),
        #[trigger] new[b].spec_key(),
    ) by {
        if b < i {
            assert(seq_lt(old[a].spec_key(), old[b].spec_key()));
        } else if a < i {
            assert(new[b] == old[b + 1]);
            assert(seq_lt(old[a].spec_key(), old[b + 1].spec_key()));
        } else {
            assert(new[a] == old[a + 1]);
            assert(new[b] == old[b + 1]);
            assert(seq_lt(old[a + 1].spec_key(), old[b + 1].spec_key()));
        }
    }
    assert forall|k2: Seq<char>| #[trigger] has_key(new, k2) == (has_key(old, k2) && k2 != k) by {
        if has_key(new, k2) {
            let j = choose|j: int| 0 <= j < new.len() && (#[trigger] new[j]).spec_key() == k2;
            if j < i {
                assert(old[j].spec_key() == k2);
                if k2 == k {
                    lemma_key_unique(old, i, j);
                }
            } else {
                assert(old[j + 1].spec_key() == k2);
                if k2 == k {
                    lemma_key_unique(old, i, j + 1);
                }
            }
        }
        if has_key(old, k2) && k2 != k {
            let j = choose|j: int| 0 <= j < old.len() && (#[trigger] old[j]).spec_key() == k2;
            if j < i {
                assert(new[j].spec_key() == k2);
            } else {
                assert(j != i);
                assert(new[j - 1].spec_key() == k2);
            }
        }
    }
    assert forall|k2: Seq<char>| #[trigger] key_map(new).contains_key(k2) implies key_map(new)[k2]
        == key_map(old).remove(k)[k2] by {
        let j = index_of_key(new, k2);
        lemma_key_map_at(new, j);
        if j < i {
            assert(old[j] == new[j]);
            lemma_key_map_at(old, j);
        } else {
            assert(old[j + 1] == new[j]);
            lemma_key_map_at(old, j + 1);
        }
    }
    assert(key_map(new) =~= key_map(old).remove(k));
}

/// Puts `item` in the list: it replaces the item with the same key, which is handed back, or
/// goes in at the place its key belongs.
pub fn add_by_key<T: KeyedItem>(v: &mut Vec<T>, item: T) -> (r: Option<T>)
    requires
        sorted_by_key(old(v)@),
    ensures
        sorted_by_key(final(v)@),
        key_map(final(v)@) == key_map(old(v)@).insert(item.spec_key(), item),
        match r {
            Some(x) => has_key(old(v)@, item.spec_key()) && x == key_map(old(v)@)[item.spec_key()]
                && final(v)@.len() == old(v)@.len(),
            None => !has_key(old(v)@, item.spec_key()) && final(v)@.len() == old(v)@.len() + 1,
        },
{
    let ghost k = item.spec_key();
    match search_by_key(v, item.item_key()) {
        Ok(index) => {
            proof {
                lemma_key_map_at(old(v)@, index as int);
                lemma_replace_at(old(v)@, index as int, item);
            }
            v.push(item);
            let old_item = v.swap_remove(index);
            assert(v@ =~= old(v)@.update(index as int, item));
            Some(old_item)
        },
        Err(index) => {
            proof {
                lemma_insert_at(old(v)@, index as int, item);
            }
            v.insert(index, item);
            None
        },
    }
}

/// Takes the item with key `key` out of the list, if there is one; otherwise the list is
/// left as it is.
pub fn remove_by_key<T: KeyedItem>(v: &mut Vec<T>, key: &str) -> (r: Option<T>)
    requires
        sorted_by_key(old(v)@),
    ensures
        sorted_by_key(final(v)@),
        key_map(final(v)@) == key_map(old(v)@).remove(key@),
        match r {
            Some(x) => has_key(old(v)@, key@) && x == key_map(old(v)@)[key@] && final(v)@.len()
                == old(v)@.len() - 1,
            None => !has_key(old(v)@, key@) && final(v)@ == old(v)@,
        },
{
    match search_by_key(v, key) {
        Ok(index) => {
            proof {
                lemma_key_map_at(old(v)@, index as int);
                lemma_remove_at(old(v)@, index as int);
            }
            let x = v.remove(index);
            Some(x)
        },
        Err(index) => {
            proof {
                if has_key(old(v)@, key@) {
                    let j = choose|j: int| 0 <= j < old(v)@.len() && (#[trigger] old(v)@[j]).spec_key() == key@;
                    lemma_seq_lt_irreflexive(key@);
                }
                assert(key_map(old(v)@).remove(key@) =~= key_map(old(v)@));
            }
            None
        },
    }
}

/// A sorted list is determined by its map: two sorted lists with the same map are the same
/// list.
pub proof fn lemma_sorted_determined_by_map<T: KeyedItem>(a: Seq<T>, b: Seq<T>)
    requires
        sorted_by_key(a),
        sorted_by_key(b),
        key_map(a) == key_map(b),
    ensures
        a == b,
    decreases a.len(),
{
    if a.len() == 0 {
        if b.len() > 0 {
            lemma_key_map_at(b, 0);
            assert(key_map(a).contains_key(b[0].spec_key()));
        }
        assert(a =~= b);
    } else {
        lemma_key_map_at(a, 0);
        let ka = a[0].spec_key();
        assert(key_map(b).contains_key(ka));
        assert(b.len() > 0);
        lemma_key_map_at(b, 0);
        let kb = b[0].spec_key();
        assert(key_map(a).contains_key(kb));
        let ja = index_of_key(a, kb);
        lemma_key_map_at(a, ja);
        let jb = index_of_key(b, ka);
        lemma_key_map_at(b, jb);
        if ka != kb {
            if ja > 0 {
                assert(seq_lt(ka, kb));
            }
            if jb > 0 {
                assert(seq_lt(kb, ka));
            }
            if ja > 0 && jb > 0 {
                lemma_seq_lt_asymmetric(ka, kb);
            }
        }
        assert(ka == kb);
        assert(a[0] == b[0]);
        lemma_remove_at(a, 0);
        lemma_remove_at(b, 0);
        lemma_sorted_determined_by_map(a.remove(0), b.remove(0));
        assert(a =~= seq![a[0]] + a.remove(0));
        assert(b =~= seq![b[0]] + b.remove(0));
    }
}

/// After an item goes into a keyed list, its key gives that item, and every other key gives
/// what it gave before.
pub proof fn law_lookup_after_add<T: KeyedItem>(
    before: Seq<T>,
    after: Seq<T>,
    item: T,
    other: Seq<char>,
)
    requires
        key_map(after) == key_map(before).insert(item.spec_key(), item),
    ensures
        key_map(after).contains_key(item.spec_key()),
        key_map(after)[item.spec_key()] == item,
        other != item.spec_key() ==> key_map(after).contains_key(other) == key_map(
            before,
        ).contains_key(other),
        other != item.spec_key() && key_map(before).contains_key(other) ==> key_map(after)[other]
            == key_map(before)[other],
{
}

/// Taking out the key of an item that was just added to a sorted list that lacked that key
/// gives back the list as it was before the addition.
pub proof fn law_remove_undoes_add<T: KeyedItem>(before: Seq<T>, added: Seq<T>, after: Seq<T>, item: T)
    requires
        sorted_by_key(before),
        !has_key(before, item.spec_key()),
        key_map(added) == key_map(before).insert(item.spec_key(), item),
        sorted_by_key(after),
        key_map(after) == key_map(added).remove(item.spec_key()),
    ensures
        after == before,
{
    assert(!key_map(before).contains_key(item.spec_key()));
    assert(key_map(after) =~= key_map(before));
    lemma_sorted_determined_by_map(after, before);
}

/// Adding an item again with the same key and contents changes nothing, and adding two items
/// with different keys in either order gives the same list.
pub proof fn law_add_idempotent_and_commutative<T: KeyedItem>(
    s: Seq<T>,
    once: Seq<T>,
    twice: Seq<T>,
    x: T,
    y: T,
    xy: Seq<T>,
    yx: Seq<T>,
    x_then: Seq<T>,
    y_then: Seq<T>,
)
    requires
        sorted_by_key(once),
        sorted_by_key(twice),
        key_map(once) == key_map(s).insert(x.spec_key(), x),
        key_map(twice) == key_map(once).insert(x.spec_key(), x),
        x.spec_key() != y.spec_key(),
        key_map(x_then) == key_map(s).insert(x.spec_key(), x),
        key_map(xy) == key_map(x_then).insert(y.spec_key(), y),
        key_map(y_then) == key_map(s).insert(y.spec_key(), y),
        key_map(yx) == key_map(y_then).insert(x.spec_key(), x),
        sorted_by_key(xy),
        sorted_by_key(yx),
    ensures
        twice == once,
        xy == yx,
{
    assert(key_map(twice) =~= key_map(once));
    lemma_sorted_determined_by_map(twice, once);
    assert(key_map(xy) =~= key_map(yx));
    lemma_sorted_determined_by_map(xy, yx);
}

/// The items' views as a map from their keys.
pub open spec fn view_map<T: KeyedItem>(s: Seq<T>) -> Map<Seq<char>, T::V> {
    key_map(s).map_values(|t: T| t@)
}

/// Maps that differ by one insertion have views that differ by the same insertion.
pub proof fn lemma_view_map_insert<T: KeyedItem>(a: Seq<T>, b: Seq<T>, k: Seq<char>, x: T)
    requires
        key_map(a) == key_map(b).insert(k, x),
    ensures
        view_map(a) == view_map(b).insert(k, x@),
{
    assert(view_map(a) =~= view_map(b).insert(k, x@));
}

/// Maps that differ by one removal have views that differ by the same removal.
pub proof fn lemma_view_map_remove<T: KeyedItem>(a: Seq<T>, b: Seq<T>, k: Seq<char>)
    requires
        key_map(a) == key_map(b).remove(k),
    ensures
        view_map(a) == view_map(b).remove(k),
{
    assert(view_map(a) =~= view_map(b).remove(k));
}

/// Whether the keys of `v` strictly ascend.
pub fn is_sorted_by_key<T: KeyedItem>(v: &Vec<T>) -> (r: bool)
    ensures
        r == sorted_by_key(v@),
{
    let n = v.len();
    if n == 0 {
        return true;
    }
    let mut i: usize = 1;
    while i < n
        invariant
            1 <= i <= n,
            n == v@.len(),
            sorted_by_key(v@.subrange(0, i as int)),
        decreases n - i,
    {
        if !str_lt(v[i - 1].item_key(), v[i].item_key()) {
            assert(!sorted_by_key(v@)) by {
                assert(!seq_lt(v@[i - 1].spec_key(), v@[i as int].spec_key()));
            }
            return false;
        }
        assert forall|a: int, b: int| 0 <= a < b < i + 1 implies seq_lt(
            #[trigger] v@.subrange(0, i + 1)[a].spec_key(),
            #[trigger] v@.subrange(0, i + 1)[b].spec_key(),
        ) by {
            if b < i {
                assert(v@.subrange(0, i as int)[a] == v@[a]);
                assert(v@.subrange(0, i as int)[b] == v@[b]);
            } else if a < i - 1 {
                assert(v@.subrange(0, i as int)[a] == v@[a]);
                assert(v@.subrange(0, i as int)[i - 1] == v@[i - 1]);
                assert(seq_lt(v@[a].spec_key(), v@[i - 1].spec_key()));
                lemma_seq_lt_transitive(v@[a].spec_key(), v@[i - 1].spec_key(), v@[b].spec_key());
            }
        }
        i += 1;
    }
    assert(v@.subrange(0, n as int) =~= v@);
    true
}

/// Puts `item` in the list unless an item with its key is already there.
pub fn add_if_absent<T: KeyedItem>(v: &mut Vec<T>, item: T)
    requires
        sorted_by_key(old(v)@),
    ensures
        sorted_by_key(final(v)@),
        has_key(old(v)@, item.spec_key()) ==> final(v)@ == old(v)@,
        !has_key(old(v)@, item.spec_key()) ==> key_map(final(v)@) == key_map(old(v)@).insert(
            item.spec_key(),
            item,
        ),
{
    match search_by_key(v, item.item_key()) {
        Ok(index) => {
            proof {
                lemma_key_map_at(old(v)@, index as int);
            }
        },
        Err(index) => {
            proof {
                lemma_insert_at(old(v)@, index as int, item);
            }
            v.insert(index, item);
        },
    }
}

/// A key is in the view map exactly when some item has it.
pub proof fn lemma_view_map_domain<T: KeyedItem>(s: Seq<T>, k: Seq<char>)
    ensures
        view_map(s).contains_key(k) == has_key(s, k),
{
}

/// A sorted list is determined, up to the views of its items, by its view map.
pub proof fn lemma_sorted_views_determined<T: KeyedItem>(a: Seq<T>, b: Seq<T>)
    requires
        sorted_by_key(a),
        sorted_by_key(b),
        view_map(a) == view_map(b),
    ensures
        a.map_values(|t: T| t@) == b.map_values(|t: T| t@),
    decreases a.len(),
{
    if a.len() == 0 {
        if b.len() > 0 {
            lemma_key_map_at(b, 0);
            assert(view_map(b).contains_key(b[0].spec_key()));
        }
        assert(a.map_values(|t: T| t@) =~= b.map_values(|t: T| t@));
    } else {
        lemma_key_map_at(a, 0);
        let ka = a[0].spec_key();
        assert(view_map(b).contains_key(ka));
        assert(b.len() > 0);
        lemma_key_map_at(b, 0);
        let kb = b[0].spec_key();
        assert(view_map(a).contains_key(kb));
        let ja = index_of_key(a, kb);
        lemma_key_map_at(a, ja);
        let jb = index_of_key(b, ka);
        lemma_key_map_at(b, jb);
        if ka != kb {
            if ja > 0 {
                assert(seq_lt(ka, kb));
            }
            if jb > 0 {
                assert(seq_lt(kb, ka));
            }
            if ja > 0 && jb > 0 {
                lemma_seq_lt_asymmetric(ka, kb);
            }
        }
        assert(ka == kb);
        assert(view_map(a)[ka] == a[0]@);
        assert(view_map(b)[ka] == b[0]@);
        lemma_remove_at(a, 0);
        lemma_remove_at(b, 0);
        lemma_view_map_remove(a.remove(0), a, ka);
        lemma_view_map_remove(b.remove(0), b, ka);
        lemma_sorted_views_determined(a.remove(0), b.remove(0));
        let va = a.map_values(|t: T| t@);
        let vb = b.map_values(|t: T| t@);
        assert(a.remove(0).map_values(|t: T| t@) =~= va.remove(0));
        assert(b.remove(0).map_values(|t: T| t@) =~= vb.remove(0));
        assert(va =~= vb) by {
            assert(va.len() == vb.len());
            assert forall|i: int| 0 <= i < va.len() implies va[i] == vb[i] by {
                if i > 0 {
                    assert(va[i] == va.remove(0)[i - 1]);
                    assert(vb[i] == vb.remove(0)[i - 1]);
                }
            }
        }
    }
}

/// After an item goes into a keyed list, looking its key up gives an item with that item's
/// view, and every other key gives what it gave before.
pub proof fn law_view_lookup_after_add<T: KeyedItem>(
    before: Seq<T>,
    after: Seq<T>,
    k: Seq<char>,
    x: T::V,
    other: Seq<char>,
)
    requires
        view_map(after) == view_map(before).insert(k, x),
    ensures
        has_key(after, k),
        key_map(after)[k]@ == x,
        other != k ==> has_key(after, other) == has_key(before, other),
        other != k && has_key(before, other) ==> key_map(after)[other]@ == key_map(before)[other]@,
{
    assert(view_map(after).contains_key(k));
    assert(view_map(after)[k] == x);
    if other != k {
        assert(view_map(after).contains_key(other) == view_map(before).contains_key(other));
        if has_key(before, other) {
            assert(view_map(after)[other] == view_map(before)[other]);
        }
    }
}

/// Taking out the key of an item just added to a sorted list that lacked that key gives back
/// a list with the same item views, in the same order, as before the addition.
pub proof fn law_view_remove_undoes_add<T: KeyedItem>(
    before: Seq<T>,
    added: Seq<T>,
    after: Seq<T>,
    k: Seq<char>,
    x: T::V,
)
    requires
        sorted_by_key(before),
        !has_key(before, k),
        view_map(added) == view_map(before).insert(k, x),
        sorted_by_key(after),
        view_map(after) == view_map(added).remove(k),
    ensures
        after.map_values(|t: T| t@) == before.map_values(|t: T| t@),
{
    assert(!view_map(before).contains_key(k));
    assert(view_map(after) =~= view_map(before));
    lemma_sorted_views_determined(after, before);
}

} // verus!
