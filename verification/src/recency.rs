//! Arranging favorited videos from the most recently added down.
//!
//! Pages of one listing are fetched at different moments, so their
//! concatenation need not be ordered. The arrangement defined here is the
//! stable one: videos added at the same moment keep the order in which they
//! were received.

use vstd::prelude::*;
use vstd::seq_lib::*;
use crate::resource::FavoriteResource;

verus! {

/// Whether no video in `items` stands before one that was added later.
pub open spec fn newest_first_ordered(items: Seq<FavoriteResource>) -> bool {
    forall|i: int, j: int| 0 <= i < j < items.len() ==> items[i].fav_time >= items[j].fav_time
}

/// Whether each video in `items` was added strictly later than all that follow it.
pub open spec fn strictly_newest_first(items: Seq<FavoriteResource>) -> bool {
    forall|i: int, j: int| 0 <= i < j < items.len() ==> items[i].fav_time > items[j].fav_time
}

/// The videos of `items` that were added at the moment `time`, in order.
pub open spec fn added_at(items: Seq<FavoriteResource>, time: i64) -> Seq<FavoriteResource> {
    items.filter(|r: FavoriteResource| r.fav_time == time)
}

/// `ordered` with `item` placed behind every video added at the same moment or later.
pub open spec fn place(ordered: Seq<FavoriteResource>, item: FavoriteResource) -> Seq<
    FavoriteResource,
>
    decreases ordered.len(),
{
    if ordered.len() == 0 || ordered.last().fav_time >= item.fav_time {
        ordered.push(item)
    } else {
        place(ordered.drop_last(), item).push(ordered.last())
    }
}

/// The videos of `items` from the most recently added down, those added at
/// the same moment in the order they have in `items`.
pub open spec fn newest_first(items: Seq<FavoriteResource>) -> Seq<FavoriteResource>
    decreases items.len(),
{
    if items.len() == 0 {
        items
    } else {
        place(newest_first(items.drop_last()), items.last())
    }
}

/// Placing a video puts it at the first position whose followers were all added earlier.
proof fn lemma_place_at(ordered: Seq<FavoriteResource>, item: FavoriteResource, p: int)
    requires
        0 <= p <= ordered.len(),
        forall|j: int| p <= j < ordered.len() ==> ordered[j].fav_time < item.fav_time,
        p > 0 ==> ordered[p - 1].fav_time >= item.fav_time,
    ensures
        place(ordered, item) == ordered.take(p).push(item) + ordered.skip(p),
    decreases ordered.len() - p,
{
    if p == ordered.len() {
        assert(ordered.take(p) =~= ordered);
        assert(ordered.push(item) =~= ordered.take(p).push(item) + ordered.skip(p));
    } else {
        let rest = ordered.drop_last();
        lemma_place_at(rest, item, p);
        assert(rest.take(p) =~= ordered.take(p));
        assert((rest.take(p).push(item) + rest.skip(p)).push(ordered.last()) =~= ordered.take(
            p,
        ).push(item) + ordered.skip(p));
    }
}

/// Placing a video keeps every other video and adds exactly that one.
pub proof fn lemma_place_splits(ordered: Seq<FavoriteResource>, item: FavoriteResource) -> (p: int)
    ensures
        0 <= p <= ordered.len(),
        place(ordered, item) == ordered.take(p).push(item) + ordered.skip(p),
        forall|j: int| p <= j < ordered.len() ==> ordered[j].fav_time < item.fav_time,
        p > 0 ==> ordered[p - 1].fav_time >= item.fav_time,
    decreases ordered.len(),
{
    if ordered.len() == 0 || ordered.last().fav_time >= item.fav_time {
        let p = ordered.len() as int;
        lemma_place_at(ordered, item, p);
        p
    } else {
        let rest = ordered.drop_last();
        let p = lemma_place_splits(rest, item);
        assert forall|j: int| p <= j < ordered.len() implies ordered[j].fav_time
            < item.fav_time by {
            if j < rest.len() {
                assert(ordered[j] == rest[j]);
            }
        }
        if p > 0 {
            assert(ordered[p - 1] == rest[p - 1]);
        }
        lemma_place_at(ordered, item, p);
        p
    }
}

/// The arrangement has as many videos as it was given.
pub proof fn lemma_newest_first_len(items: Seq<FavoriteResource>)
    ensures
        newest_first(items).len() == items.len(),
    decreases items.len(),
{
    if items.len() > 0 {
        lemma_newest_first_len(items.drop_last());
        let p = lemma_place_splits(newest_first(items.drop_last()), items.last());
    }
}

/// The arrangement never shows a video before one that was added later.
pub proof fn lemma_newest_first_ordered(items: Seq<FavoriteResource>)
    ensures
        newest_first_ordered(newest_first(items)),
    decreases items.len(),
{
    if items.len() > 0 {
        let before = newest_first(items.drop_last());
        let item = items.last();
        lemma_newest_first_ordered(items.drop_last());
        let p = lemma_place_splits(before, item);
        let after = newest_first(items);
        assert forall|i: int, j: int| 0 <= i < j < after.len() implies after[i].fav_time
            >= after[j].fav_time by {
            if j < p {
                assert(after[i] == before[i] && after[j] == before[j]);
            } else if j == p {
                assert(after[j] == item);
                assert(after[i] == before[i]);
                if p > 0 {
                    assert(before[i].fav_time >= before[p - 1].fav_time);
                }
            } else {
                assert(after[j] == before[j - 1]);
                if i < p {
                    assert(after[i] == before[i]);
                } else if i == p {
                    assert(after[i] == item);
                } else {
                    assert(after[i] == before[i - 1]);
                }
            }
        }
    }
}

/// The arrangement holds exactly the videos it was given, each as often as given.
pub proof fn lemma_newest_first_permutes(items: Seq<FavoriteResource>)
    ensures
        newest_first(items).to_multiset() == items.to_multiset(),
    decreases items.len(),
{
    if items.len() > 0 {
        let rest = items.drop_last();
        let before = newest_first(rest);
        let item = items.last();
        lemma_newest_first_permutes(rest);
        let p = lemma_place_splits(before, item);
        assert(place(before, item) =~= before.insert(p, item));
        to_multiset_insert(before, p, item);
        assert(items =~= rest.push(item));
        to_multiset_build(rest, item);
    }
}

/// The arrangement is stable: the videos added at any one moment keep the
/// order in which they were given.
pub proof fn lemma_newest_first_stable(items: Seq<FavoriteResource>, time: i64)
    ensures
        added_at(newest_first(items), time) == added_at(items, time),
    decreases items.len(),
{
    let at = |r: FavoriteResource| r.fav_time == time;
    if items.len() > 0 {
        let rest = items.drop_last();
        let before = newest_first(rest);
        let item = items.last();
        lemma_newest_first_stable(rest, time);
        let p = lemma_place_splits(before, item);
        let head = before.take(p);
        let tail = before.skip(p);
        assert(before =~= head + tail);
        Seq::filter_distributes_over_add(head, tail, at);
        Seq::filter_distributes_over_add(head.push(item), tail, at);
        head.lemma_filter_push(item, at);
        assert(items =~= rest.push(item));
        rest.lemma_filter_push(item, at);
        if item.fav_time == time {
            assert(tail.all(|x: FavoriteResource| !at(x))) by {
                assert forall|k: int| 0 <= k < tail.len() implies !at(tail[k]) by {
                    assert(tail[k] == before[p + k]);
                }
            }
            tail.lemma_all_neg_filter_empty(at);
            assert(head.filter(at).push(item) + tail.filter(at) =~= (head.filter(at) + tail.filter(
                at,
            )).push(item));
        }
    }
}

/// Videos that already run from the newest down are left as they are.
pub proof fn lemma_newest_first_keeps_ordered(items: Seq<FavoriteResource>)
    requires
        newest_first_ordered(items),
    ensures
        newest_first(items) == items,
    decreases items.len(),
{
    if items.len() > 0 {
        let rest = items.drop_last();
        assert(newest_first_ordered(rest));
        lemma_newest_first_keeps_ordered(rest);
        if rest.len() > 0 {
            assert(rest.last() == items[items.len() - 2]);
        }
        assert(rest.push(items.last()) =~= items);
    }
}

/// Two listings that both run from the newest down and that agree, moment by
/// moment, on the videos added then and on their order are the same listing.
pub proof fn lemma_stable_arrangement_unique(a: Seq<FavoriteResource>, b: Seq<FavoriteResource>)
    requires
        newest_first_ordered(a),
        newest_first_ordered(b),
        forall|time: i64| added_at(a, time) == added_at(b, time),
    ensures
        a == b,
    decreases a.len(),
{
    if a.len() == 0 {
        if b.len() > 0 {
            let t = b[0].fav_time;
            b.lemma_filter_contains(|r: FavoriteResource| r.fav_time == t, 0);
            assert(added_at(a, t) =~= Seq::<FavoriteResource>::empty());
            assert(added_at(b, t).contains(b[0]));
        }
        assert(a =~= b);
    } else if b.len() == 0 {
        let t = a[0].fav_time;
        a.lemma_filter_contains(|r: FavoriteResource| r.fav_time == t, 0);
        assert(added_at(b, t) =~= Seq::<FavoriteResource>::empty());
        assert(added_at(a, t).contains(a[0]));
    } else {
        let x = a.last();
        let y = b.last();
        let front_a = a.drop_last();
        let front_b = b.drop_last();
        assert(a =~= front_a.push(x));
        assert(b =~= front_b.push(y));
        lemma_last_is_oldest(a, b);
        lemma_last_is_oldest(b, a);
        let t0 = x.fav_time;
        assert(y.fav_time == t0);
        assert forall|time: i64| added_at(front_a, time) == added_at(front_b, time) by {
            let at = |r: FavoriteResource| r.fav_time == time;
            front_a.lemma_filter_push(x, at);
            front_b.lemma_filter_push(y, at);
            assert(added_at(a, time) == added_at(b, time));
            if time == t0 {
                assert(added_at(front_a, time) =~= added_at(a, time).drop_last());
                assert(added_at(front_b, time) =~= added_at(b, time).drop_last());
            }
        }
        assert(x == y) by {
            let at = |r: FavoriteResource| r.fav_time == t0;
            front_a.lemma_filter_push(x, at);
            front_b.lemma_filter_push(y, at);
            assert(added_at(a, t0) == added_at(b, t0));
            assert(added_at(a, t0).last() == x);
            assert(added_at(b, t0).last() == y);
        }
        assert(newest_first_ordered(front_a));
        assert(newest_first_ordered(front_b));
        lemma_stable_arrangement_unique(front_a, front_b);
    }
}

/// The last video of an ordered listing was added no later than the last
/// video of any listing that shows the same videos moment by moment.
proof fn lemma_last_is_oldest(a: Seq<FavoriteResource>, b: Seq<FavoriteResource>)
    requires
        a.len() > 0,
        b.len() > 0,
        newest_first_ordered(a),
        forall|time: i64| added_at(a, time) == added_at(b, time),
    ensures
        a.last().fav_time <= b.last().fav_time,
{
    let y = b.last();
    let t = y.fav_time;
    let at = |r: FavoriteResource| r.fav_time == t;
    b.lemma_filter_contains(at, b.len() - 1);
    assert(added_at(a, t) == added_at(b, t));
    assert(added_at(a, t).contains(y));
    a.lemma_filter_contains_rev(at, y);
    let k = choose|k: int| 0 <= k < a.len() && a[k] == y;
    if k < a.len() - 1 {
        assert(a[k].fav_time >= a[a.len() - 1].fav_time);
    }
}

/// The arrangement is the only listing that runs from the newest down and
/// keeps, for every moment, the videos added then in the order given.
pub proof fn lemma_newest_first_is_the_stable_arrangement(
    items: Seq<FavoriteResource>,
    other: Seq<FavoriteResource>,
)
    requires
        newest_first_ordered(other),
        forall|time: i64| added_at(other, time) == added_at(items, time),
    ensures
        other == newest_first(items),
{
    lemma_newest_first_ordered(items);
    assert forall|time: i64| added_at(other, time) == added_at(newest_first(items), time) by {
        lemma_newest_first_stable(items, time);
        assert(added_at(other, time) == added_at(items, time));
    }
    lemma_stable_arrangement_unique(other, newest_first(items));
}

/// Whether `key` tells any two places of `items` apart.
spec fn distinct_by(items: Seq<FavoriteResource>, key: spec_fn(FavoriteResource) -> int) -> bool {
    forall|i: int, j: int| 0 <= i < j < items.len() ==> key(items[i]) != key(items[j])
}

/// A key that tells the given videos apart still does so after arranging them.
proof fn lemma_newest_first_keeps_distinct(
    items: Seq<FavoriteResource>,
    key: spec_fn(FavoriteResource) -> int,
)
    requires
        distinct_by(items, key),
    ensures
        distinct_by(newest_first(items), key),
    decreases items.len(),
{
    if items.len() > 0 {
        let rest = items.drop_last();
        let before = newest_first(rest);
        let item = items.last();
        assert(distinct_by(rest, key));
        lemma_newest_first_keeps_distinct(rest, key);
        lemma_newest_first_permutes(rest);
        let p = lemma_place_splits(before, item);
        let after = newest_first(items);
        assert forall|k: int| 0 <= k < before.len() implies key(before[k]) != key(item) by {
            to_multiset_contains(before, before[k]);
            to_multiset_contains(rest, before[k]);
            assert(before.contains(before[k]));
            let w = choose|w: int| 0 <= w < rest.len() && rest[w] == before[k];
            assert(items[w] == rest[w]);
        }
        assert forall|i: int, j: int| 0 <= i < j < after.len() implies key(after[i]) != key(
            after[j],
        ) by {
            let a = if i < p { i } else { i - 1 };
            let b = if j < p { j } else { j - 1 };
            if i != p {
                assert(after[i] == before[a]);
            } else {
                assert(after[i] == item);
            }
            if j != p {
                assert(after[j] == before[b]);
            } else {
                assert(after[j] == item);
            }
        }
    }
}

/// Whether no two places of `items` hold the same video identifier.
pub open spec fn distinct_ids(items: Seq<FavoriteResource>) -> bool {
    forall|i: int, j: int| 0 <= i < j < items.len() ==> items[i].id != items[j].id
}

/// Whether no two places of `items` hold videos added at the same moment.
pub open spec fn distinct_times(items: Seq<FavoriteResource>) -> bool {
    forall|i: int, j: int| 0 <= i < j < items.len() ==> items[i].fav_time != items[j].fav_time
}

/// Arranging videos whose identifiers differ yields no identifier twice.
pub proof fn lemma_newest_first_keeps_distinct_ids(items: Seq<FavoriteResource>)
    requires
        distinct_ids(items),
    ensures
        distinct_ids(newest_first(items)),
{
    let key = |r: FavoriteResource| r.id as int;
    assert(distinct_by(items, key));
    lemma_newest_first_keeps_distinct(items, key);
    let sorted = newest_first(items);
    assert forall|i: int, j: int| 0 <= i < j < sorted.len() implies sorted[i].id
        != sorted[j].id by {
        assert(key(sorted[i]) != key(sorted[j]));
    }
}

/// Arranging videos that were all added at different moments puts each one
/// strictly before all that were added earlier.
pub proof fn lemma_newest_first_strict(items: Seq<FavoriteResource>)
    requires
        distinct_times(items),
    ensures
        strictly_newest_first(newest_first(items)),
{
    let key = |r: FavoriteResource| r.fav_time as int;
    assert(distinct_by(items, key));
    lemma_newest_first_keeps_distinct(items, key);
    lemma_newest_first_ordered(items);
    let sorted = newest_first(items);
    assert forall|i: int, j: int| 0 <= i < j < sorted.len() implies sorted[i].fav_time
        > sorted[j].fav_time by {
        assert(key(sorted[i]) != key(sorted[j]));
    }
}

/// Sorts `items` from the most recently added down, keeping the order of
/// videos that were added at the same moment.
pub fn sort_newest_first(items: &mut Vec<FavoriteResource>)
    ensures
        final(items)@ == newest_first(old(items)@),
{
    let ghost given = items@;
    let n = items.len();
    let mut i: usize = 0;
    while i < n
        invariant
            n == given.len(),
            items.len() == n,
            i <= n,
            items@.take(i as int) == newest_first(given.take(i as int)),
            items@.skip(i as int) == given.skip(i as int),
        decreases n - i,
    {
        let ghost before = items@.take(i as int);
        let time = items[i].fav_time;
        let mut p: usize = i;
        while p > 0 && items[p - 1].fav_time < time
            invariant
                p <= i < n,
                items.len() == n,
                before == items@.take(i as int),
                time == items@[i as int].fav_time,
                forall|j: int| p <= j < i ==> before[j].fav_time < time,
            decreases p,
        {
            p -= 1;
        }
        proof {
            let item = items@[i as int];
            assert(item == given[i as int]) by {
                assert(items@.skip(i as int)[0] == given.skip(i as int)[0]);
            }
            lemma_place_at(before, item, p as int);
            assert(given.take(i + 1).drop_last() =~= given.take(i as int));
        }
        if p < i {
            let item = items.remove(i);
            items.insert(p, item);
        }
        proof {
            let item = given[i as int];
            assert(items@.take(i + 1) =~= before.take(p as int).push(item) + before.skip(p as int));
            let rest_now = items@.skip(i + 1);
            let rest_given = given.skip(i + 1);
            assert forall|k: int| 0 <= k < rest_now.len() implies #[trigger] rest_now[k]
                == rest_given[k] by {
                assert(given.skip(i as int)[k + 1] == given[i + 1 + k]);
            }
            assert(rest_now =~= rest_given);
        }
        i += 1;
    }
    assert(items@ =~= items@.take(n as int));
    assert(given =~= given.take(n as int));
}

} // verus!
