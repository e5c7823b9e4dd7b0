//! What holds of every collection.
use vstd::prelude::*;

use crate::model::{
    all_deletions, deletions, eligible_objects, ids_are_unique,
    ids_of, is_eligible, is_referenced, kind_of, may_be_deleted, of_kind, only_retains,
    pass_deletions, policy_for, reaches_fences, survivors, CollectionView, FilterOutcome,
    WalObject, WalObjectKind,
};
use crate::request::{WalFileId, WalFileRange};
use crate::time::{elapsed_leap_seconds, elapsed_nanos, Timestamp, NANOS_PER_SEC};

verus! {

/// An object is in a filtered sequence exactly if it is in the sequence and passes.
pub(crate) proof fn lemma_filter_membership<A>(s: Seq<A>, pred: spec_fn(A) -> bool, x: A)
    ensures
        s.filter(pred).contains(x) <==> s.contains(x) && pred(x),
    decreases s.len(),
{
    reveal(Seq::filter);
    if s.len() > 0 {
        let rest = s.drop_last();
        lemma_filter_membership(rest, pred, x);
        assert(s == rest.push(s.last()));
        assert forall|t: Seq<A>, y: A| #[trigger]
            t.push(y).contains(x) <==> t.contains(x) || y == x by {
            if t.contains(x) {
                let i = choose|i: int| 0 <= i < t.len() && t[i] == x;
                assert(t.push(y)[i] == x);
            }
            if y == x {
                assert(t.push(y)[t.len() as int] == x);
            }
            if t.push(y).contains(x) && y != x {
                let i = choose|i: int| 0 <= i < t.push(y).len() && t.push(y)[i] == x;
                assert(t[i] == x);
            }
        }
    }
}

/// An identifier is among those of the objects exactly if one of them has it.
proof fn lemma_ids_membership(objects: Seq<WalObject>, id: WalFileId)
    ensures
        ids_of(objects).contains(id) <==> exists|object: WalObject| #[trigger]
            objects.contains(object) && object.id == id,
{
    if ids_of(objects).contains(id) {
        let i = choose|i: int| 0 <= i < ids_of(objects).len() && ids_of(objects)[i] == id;
        assert(objects.contains(objects[i]));
    }
    if exists|object: WalObject| #[trigger] objects.contains(object) && object.id == id {
        let object = choose|object: WalObject| #[trigger]
            objects.contains(object) && object.id == id;
        let i = choose|i: int| 0 <= i < objects.len() && objects[i] == object;
        assert(ids_of(objects)[i] == id);
    }
}

/// The candidates of a pass are exactly the objects of the listing that are of its class, old
/// enough and not referenced.
pub proof fn law_candidates(
    listing: Seq<WalObject>,
    kind: WalObjectKind,
    now: Timestamp,
    min_age: int,
    ranges: Seq<WalFileRange>,
    object: WalObject,
)
    ensures
        eligible_objects(of_kind(listing, kind), now, min_age, ranges).contains(object) <==> {
            &&& listing.contains(object)
            &&& kind_of(object) == kind
            &&& is_eligible(object, now, min_age, ranges)
        },
{
    lemma_filter_membership(listing, |object: WalObject| kind_of(object) == kind, object);
    lemma_filter_membership(
        of_kind(listing, kind),
        |object: WalObject| is_eligible(object, now, min_age, ranges),
        object,
    );
}

/// A collection first deletes what the pass over the WAL SSTs settles on, then what the pass over
/// the fences settles on. Where the minimum age for WAL SSTs is too long to be compared with,
/// nothing is deleted.
pub proof fn law_deletions(
    collection: CollectionView,
    utc_now: Timestamp,
    listing: Seq<WalObject>,
    filter: FilterOutcome,
)
    ensures
        all_deletions(collection, utc_now, listing, filter) == if reaches_fences(collection) {
            pass_deletions(WalObjectKind::Wal, collection, utc_now, listing, filter)
                + pass_deletions(WalObjectKind::Fence, collection, utc_now, listing, filter)
        } else {
            Seq::empty()
        },
{
    reveal_with_fuel(deletions, 5);
    assert(all_deletions(collection, utc_now, listing, filter) =~= if reaches_fences(collection) {
        pass_deletions(WalObjectKind::Wal, collection, utc_now, listing, filter) + pass_deletions(
            WalObjectKind::Fence,
            collection,
            utc_now,
            listing,
            filter,
        )
    } else {
        Seq::empty()
    });
}

/// Nothing is deleted but objects of the listing whose class has a policy that deletes, and that
/// by this policy are old enough and not referenced, if the filter only retains.
pub proof fn law_only_eligible_objects_are_deleted(
    collection: CollectionView,
    utc_now: Timestamp,
    listing: Seq<WalObject>,
    filter: FilterOutcome,
    id: WalFileId,
)
    requires
        collection.gc_filter ==> only_retains(filter),
        all_deletions(collection, utc_now, listing, filter).contains(id),
    ensures
        exists|object: WalObject| #[trigger]
            listing.contains(object) && object.id == id && may_be_deleted(
                collection,
                utc_now,
                object,
            ),
{
    law_deletions(collection, utc_now, listing, filter);
    let wal = pass_deletions(WalObjectKind::Wal, collection, utc_now, listing, filter);
    let fence = pass_deletions(WalObjectKind::Fence, collection, utc_now, listing, filter);
    let i = choose|i: int| 0 <= i < (wal + fence).len() && (wal + fence)[i] == id;
    let kind = if i < wal.len() {
        assert(wal[i] == id);
        WalObjectKind::Wal
    } else {
        assert(fence[i - wal.len()] == id);
        WalObjectKind::Fence
    };
    let policy = policy_for(collection, kind)->0;
    let candidates = eligible_objects(
        of_kind(listing, kind),
        utc_now,
        policy.min_age.as_nanos(),
        collection.referenced_ranges,
    );
    let retained = if collection.gc_filter {
        filter(kind, candidates)
    } else {
        candidates
    };
    assert(ids_of(retained).contains(id));
    lemma_ids_membership(retained, id);
    let object = choose|object: WalObject| #[trigger]
        retained.contains(object) && object.id == id;
    assert(candidates.contains(object));
    law_candidates(
        listing,
        kind,
        utc_now,
        policy.min_age.as_nanos(),
        collection.referenced_ranges,
        object,
    );
}

/// Without a filter, every object that may be deleted is deleted.
///
/// A minimum age for WAL SSTs that is too long to be compared with ends the collection early.
pub proof fn law_every_eligible_object_is_deleted(
    collection: CollectionView,
    utc_now: Timestamp,
    listing: Seq<WalObject>,
    filter: FilterOutcome,
    object: WalObject,
)
    requires
        !collection.gc_filter,
        reaches_fences(collection),
        listing.contains(object),
        may_be_deleted(collection, utc_now, object),
    ensures
        all_deletions(collection, utc_now, listing, filter).contains(object.id),
{
    law_deletions(collection, utc_now, listing, filter);
    let kind = kind_of(object);
    let policy = policy_for(collection, kind)->0;
    law_candidates(
        listing,
        kind,
        utc_now,
        policy.min_age.as_nanos(),
        collection.referenced_ranges,
        object,
    );
    let candidates = eligible_objects(
        of_kind(listing, kind),
        utc_now,
        policy.min_age.as_nanos(),
        collection.referenced_ranges,
    );
    lemma_ids_membership(candidates, object.id);
    let wal = pass_deletions(WalObjectKind::Wal, collection, utc_now, listing, filter);
    let fence = pass_deletions(WalObjectKind::Fence, collection, utc_now, listing, filter);
    if kind == WalObjectKind::Wal {
        let i = choose|i: int| 0 <= i < wal.len() && wal[i] == object.id;
        assert((wal + fence)[i] == object.id);
    } else {
        let i = choose|i: int| 0 <= i < fence.len() && fence[i] == object.id;
        assert((wal + fence)[wal.len() + i] == object.id);
    }
}

/// A WAL file that a referenced range holds is not deleted, whatever its class and its age.
pub proof fn law_referenced_files_are_kept(
    collection: CollectionView,
    utc_now: Timestamp,
    listing: Seq<WalObject>,
    filter: FilterOutcome,
    id: WalFileId,
)
    requires
        collection.gc_filter ==> only_retains(filter),
        is_referenced(collection.referenced_ranges, id.0),
    ensures
        !all_deletions(collection, utc_now, listing, filter).contains(id),
{
    if all_deletions(collection, utc_now, listing, filter).contains(id) {
        law_only_eligible_objects_are_deleted(collection, utc_now, listing, filter, id);
    }
}

/// An object is not deleted unless its own class has a policy by which it may be.
proof fn lemma_kept(
    collection: CollectionView,
    utc_now: Timestamp,
    listing: Seq<WalObject>,
    filter: FilterOutcome,
    object: WalObject,
)
    requires
        collection.gc_filter ==> only_retains(filter),
        ids_are_unique(listing),
        listing.contains(object),
        !may_be_deleted(collection, utc_now, object),
    ensures
        !all_deletions(collection, utc_now, listing, filter).contains(object.id),
{
    if all_deletions(collection, utc_now, listing, filter).contains(object.id) {
        law_only_eligible_objects_are_deleted(collection, utc_now, listing, filter, object.id);
        let other = choose|other: WalObject| #[trigger]
            listing.contains(other) && other.id == object.id && may_be_deleted(
                collection,
                utc_now,
                other,
            );
        let i = choose|i: int| 0 <= i < listing.len() && listing[i] == object;
        let j = choose|j: int| 0 <= j < listing.len() && listing[j] == other;
        assert(listing[i].id == listing[j].id);
    }
}

/// An object that is not older than the minimum age of its class is kept.
pub proof fn law_young_objects_are_kept(
    collection: CollectionView,
    utc_now: Timestamp,
    listing: Seq<WalObject>,
    filter: FilterOutcome,
    object: WalObject,
)
    requires
        collection.gc_filter ==> only_retains(filter),
        ids_are_unique(listing),
        listing.contains(object),
        policy_for(collection, kind_of(object)) matches Some(policy) ==> elapsed_nanos(
            utc_now,
            object.metadata.last_modified,
        ) <= policy.min_age.as_nanos(),
    ensures
        !all_deletions(collection, utc_now, listing, filter).contains(object.id),
{
    lemma_kept(collection, utc_now, listing, filter, object);
}

/// The policy of one class does not touch the objects of the other: an object is kept if its own
/// class has no policy.
pub proof fn law_policies_keep_to_their_class(
    collection: CollectionView,
    utc_now: Timestamp,
    listing: Seq<WalObject>,
    filter: FilterOutcome,
    object: WalObject,
)
    requires
        collection.gc_filter ==> only_retains(filter),
        ids_are_unique(listing),
        listing.contains(object),
        policy_for(collection, kind_of(object)) is None,
    ensures
        !all_deletions(collection, utc_now, listing, filter).contains(object.id),
{
    lemma_kept(collection, utc_now, listing, filter, object);
}

/// An object is kept if the policy of its class is a dry run.
pub proof fn law_dry_run_keeps_objects(
    collection: CollectionView,
    utc_now: Timestamp,
    listing: Seq<WalObject>,
    filter: FilterOutcome,
    object: WalObject,
)
    requires
        collection.gc_filter ==> only_retains(filter),
        ids_are_unique(listing),
        listing.contains(object),
        policy_for(collection, kind_of(object)) matches Some(policy) && policy.dry_run,
    ensures
        !all_deletions(collection, utc_now, listing, filter).contains(object.id),
{
    lemma_kept(collection, utc_now, listing, filter, object);
}

/// A collection deletes nothing at all if no policy of its request deletes, whatever the filter
/// lets through.
pub proof fn law_nothing_is_deleted_without_a_deleting_policy(
    collection: CollectionView,
    utc_now: Timestamp,
    listing: Seq<WalObject>,
    filter: FilterOutcome,
)
    requires
        collection.wal matches Some(policy) ==> policy.dry_run,
        collection.fence matches Some(policy) ==> policy.dry_run,
    ensures
        all_deletions(collection, utc_now, listing, filter) == Seq::<WalFileId>::empty(),
{
    law_deletions(collection, utc_now, listing, filter);
    assert(all_deletions(collection, utc_now, listing, filter) =~= Seq::<WalFileId>::empty());
}

/// A filter only narrows what is deleted: with it nothing is deleted that would not be deleted
/// without it.
pub proof fn law_filter_only_narrows(
    collection: CollectionView,
    utc_now: Timestamp,
    listing: Seq<WalObject>,
    filter: FilterOutcome,
    id: WalFileId,
)
    requires
        collection.gc_filter ==> only_retains(filter),
        all_deletions(collection, utc_now, listing, filter).contains(id),
    ensures
        all_deletions(
            CollectionView { gc_filter: false, ..collection },
            utc_now,
            listing,
            filter,
        ).contains(id),
{
    law_deletions(collection, utc_now, listing, filter);
    law_only_eligible_objects_are_deleted(collection, utc_now, listing, filter, id);
    let object = choose|object: WalObject| #[trigger]
        listing.contains(object) && object.id == id && may_be_deleted(collection, utc_now, object);
    law_every_eligible_object_is_deleted(
        CollectionView { gc_filter: false, ..collection },
        utc_now,
        listing,
        filter,
        object,
    );
}

/// Two predicates that agree on the elements of a sequence filter it alike.
proof fn lemma_filter_agrees<A>(s: Seq<A>, p: spec_fn(A) -> bool, q: spec_fn(A) -> bool)
    requires
        forall|x: A| #[trigger] s.contains(x) ==> p(x) == q(x),
    ensures
        s.filter(p) == s.filter(q),
    decreases s.len(),
{
    reveal(Seq::filter);
    if s.len() > 0 {
        assert forall|x: A| #[trigger] s.drop_last().contains(x) implies p(x) == q(x) by {
            let i = choose|i: int| 0 <= i < s.drop_last().len() && s.drop_last()[i] == x;
            assert(s[i] == x);
            assert(s.contains(x));
        }
        lemma_filter_agrees(s.drop_last(), p, q);
        assert(s.contains(s.last()));
    }
}

/// Without a filter, and once all deletions have succeeded, exactly the objects that may not be
/// deleted are left, in the order in which they were.
pub proof fn law_survivors(
    collection: CollectionView,
    utc_now: Timestamp,
    listing: Seq<WalObject>,
    filter: FilterOutcome,
)
    requires
        !collection.gc_filter,
        reaches_fences(collection),
        ids_are_unique(listing),
    ensures
        survivors(listing, all_deletions(collection, utc_now, listing, filter)) == listing.filter(
            |object: WalObject| !may_be_deleted(collection, utc_now, object),
        ),
{
    let deleted = all_deletions(collection, utc_now, listing, filter);
    let survives = |object: WalObject| !deleted.contains(object.id);
    let exempt = |object: WalObject| !may_be_deleted(collection, utc_now, object);
    assert forall|object: WalObject| #[trigger] listing.contains(object) implies survives(object)
        == exempt(object) by {
        if may_be_deleted(collection, utc_now, object) {
            law_every_eligible_object_is_deleted(collection, utc_now, listing, filter, object);
        } else {
            lemma_kept(collection, utc_now, listing, filter, object);
        }
    }
    lemma_filter_agrees(listing, survives, exempt);
}

/// Without a filter, and once all deletions have succeeded, a second collection at the same time
/// with the same request finds nothing to delete.
pub proof fn law_second_collection_deletes_nothing(
    collection: CollectionView,
    utc_now: Timestamp,
    listing: Seq<WalObject>,
    filter: FilterOutcome,
)
    requires
        !collection.gc_filter,
    ensures
        all_deletions(
            collection,
            utc_now,
            survivors(listing, all_deletions(collection, utc_now, listing, filter)),
            filter,
        ) == Seq::<WalFileId>::empty(),
{
    let deleted = all_deletions(collection, utc_now, listing, filter);
    let left = survivors(listing, deleted);
    let again = all_deletions(collection, utc_now, left, filter);
    law_deletions(collection, utc_now, left, filter);
    if again.len() > 0 {
        let id = again[0];
        assert(again.contains(id));
        law_only_eligible_objects_are_deleted(collection, utc_now, left, filter, id);
        let object = choose|object: WalObject| #[trigger]
            left.contains(object) && object.id == id && may_be_deleted(collection, utc_now, object);
        lemma_filter_membership(
            listing,
            |object: WalObject| !deleted.contains(object.id),
            object,
        );
        law_every_eligible_object_is_deleted(collection, utc_now, listing, filter, object);
    }
    assert(again =~= Seq::<WalFileId>::empty());
}

/// Every object of a listing is in exactly one of the two classes: together they hold what the
/// listing holds.
pub proof fn law_classes_part_the_listing(listing: Seq<WalObject>)
    ensures
        listing.to_multiset() == of_kind(listing, WalObjectKind::Wal).to_multiset().add(
            of_kind(listing, WalObjectKind::Fence).to_multiset(),
        ),
        forall|object: WalObject|
            #![trigger listing.contains(object)]
            !(of_kind(listing, WalObjectKind::Wal).contains(object) && of_kind(
                listing,
                WalObjectKind::Fence,
            ).contains(object)),
    decreases listing.len(),
{
    broadcast use vstd::seq_lib::group_to_multiset_ensures;

    reveal(Seq::filter);
    let is_wal = |object: WalObject| kind_of(object) == WalObjectKind::Wal;
    let is_fence = |object: WalObject| kind_of(object) == WalObjectKind::Fence;
    assert forall|object: WalObject|
        #![trigger listing.contains(object)]
        !(of_kind(listing, WalObjectKind::Wal).contains(object) && of_kind(
            listing,
            WalObjectKind::Fence,
        ).contains(object)) by {
        lemma_filter_membership(listing, is_wal, object);
        lemma_filter_membership(listing, is_fence, object);
    }
    if listing.len() > 0 {
        let rest = listing.drop_last();
        law_classes_part_the_listing(rest);
        assert(listing == rest.push(listing.last()));
    }
    assert(listing.to_multiset() =~= of_kind(listing, WalObjectKind::Wal).to_multiset().add(
        of_kind(listing, WalObjectKind::Fence).to_multiset(),
    ));
}

/// References only protect: an object that is eligible under some ranges is eligible under fewer.
pub proof fn law_fewer_references_protect_less(
    object: WalObject,
    utc_now: Timestamp,
    min_age: int,
    ranges: Seq<WalFileRange>,
    fewer: Seq<WalFileRange>,
)
    requires
        is_eligible(object, utc_now, min_age, ranges),
        forall|range: WalFileRange| #[trigger] fewer.contains(range) ==> ranges.contains(range),
    ensures
        is_eligible(object, utc_now, min_age, fewer),
{
    if is_referenced(fewer, object.id.0) {
        let i = choose|i: int| 0 <= i < fewer.len() && (#[trigger] fewer[i]).contains(object.id.0);
        assert(fewer.contains(fewer[i]));
        let j = choose|j: int| 0 <= j < ranges.len() && ranges[j] == fewer[i];
        assert(ranges[j].contains(object.id.0));
    }
}

/// The age of an object is the difference of the two instants, unless one of them lies in a leap
/// second that separates their times of day.
pub proof fn law_age_is_the_difference(now: Timestamp, then: Timestamp)
    requires
        then.in_leap_second() ==> now.secs() % 86_400 <= then.secs() % 86_400,
        now.in_leap_second() ==> then.secs() % 86_400 <= now.secs() % 86_400,
    ensures
        elapsed_nanos(now, then) == (now.secs() * NANOS_PER_SEC + now.nanos()) - (then.secs()
            * NANOS_PER_SEC + then.nanos()),
{
}

/// `now` lies in a leap second that ends a day and `then` in the second after it, and counted
/// into that second `now` would come after `then`.
pub open spec fn overtakes_across_midnight(now: Timestamp, then: Timestamp) -> bool {
    &&& now.secs() % 86_400 == 86_399
    &&& then.secs() == now.secs() + 1
    &&& now.nanos() - NANOS_PER_SEC > then.nanos() % (NANOS_PER_SEC as int)
}

/// The age of an object that was modified now or later is positive only where `now` lies in a
/// leap second that ends a day and overtakes the instant of the modification.
pub proof fn law_age_before_the_modification(now: Timestamp, then: Timestamp)
    requires
        now.is_valid(),
        then.is_valid(),
        then.is_at_or_after(now),
    ensures
        elapsed_nanos(now, then) > 0 <==> overtakes_across_midnight(now, then),
{
}

/// An object that was modified now or later is not eligible under any minimum age, unless `now`
/// lies in a leap second that ends a day and overtakes the instant of the modification.
pub proof fn law_objects_from_the_future_are_not_eligible(
    object: WalObject,
    now: Timestamp,
    min_age: int,
    ranges: Seq<WalFileRange>,
)
    requires
        now.is_valid(),
        object.metadata.last_modified.is_valid(),
        object.metadata.last_modified.is_at_or_after(now),
        !overtakes_across_midnight(now, object.metadata.last_modified),
        min_age >= 0,
    ensures
        !is_eligible(object, now, min_age, ranges),
{
    law_age_before_the_modification(now, object.metadata.last_modified);
}

/// An object that is eligible stays so as its age grows and the minimum age shrinks.
pub proof fn law_eligible_objects_stay_eligible(
    object: WalObject,
    now: Timestamp,
    later: Timestamp,
    min_age: int,
    smaller_min_age: int,
    ranges: Seq<WalFileRange>,
)
    requires
        is_eligible(object, now, min_age, ranges),
        elapsed_nanos(now, object.metadata.last_modified) <= elapsed_nanos(
            later,
            object.metadata.last_modified,
        ),
        smaller_min_age <= min_age,
    ensures
        is_eligible(object, later, smaller_min_age, ranges),
{
}

/// An age shrinks from `now` to `later` exactly where fewer leap seconds count at `later` than at
/// `now`, and less time lies between the two than the leap seconds that are lost.
pub proof fn law_age_shrinks_where_leap_seconds_are_lost(
    now: Timestamp,
    later: Timestamp,
    then: Timestamp,
)
    ensures
        elapsed_nanos(later, then) < elapsed_nanos(now, then) <==> (later.secs() - now.secs())
            * NANOS_PER_SEC + (later.nanos() - now.nanos()) < (elapsed_leap_seconds(now, then)
            - elapsed_leap_seconds(later, then)) * NANOS_PER_SEC,
{
}

/// `then` lies in a leap second that does not end a day, `now` in the last second of a day and
/// `later` in the second after it, less than a second on: the leap second counts at `now`, and no
/// more at `later`.
pub open spec fn loses_leap_second_at_midnight(
    now: Timestamp,
    later: Timestamp,
    then: Timestamp,
) -> bool {
    &&& then.in_leap_second()
    &&& then.secs() % 86_400 < 86_399
    &&& now.secs() % 86_400 == 86_399
    &&& later.secs() == now.secs() + 1
    &&& later.nanos() < now.nanos()
}

/// Between two instants outside leap seconds, an age shrinks exactly where a leap second that
/// counted is lost at midnight.
pub proof fn law_age_shrinks_at_midnight(now: Timestamp, later: Timestamp, then: Timestamp)
    requires
        now.is_valid(),
        later.is_valid(),
        then.is_valid(),
        later.is_at_or_after(now),
        !now.in_leap_second(),
        !later.in_leap_second(),
    ensures
        elapsed_nanos(later, then) < elapsed_nanos(now, then) <==> loses_leap_second_at_midnight(
            now,
            later,
            then,
        ),
{
}

/// An object that is eligible stays so as time passes and the minimum age shrinks, from an instant
/// outside leap seconds to another, unless a leap second that counted is lost at midnight.
pub proof fn law_eligible_objects_stay_eligible_as_time_passes(
    object: WalObject,
    now: Timestamp,
    later: Timestamp,
    min_age: int,
    smaller_min_age: int,
    ranges: Seq<WalFileRange>,
)
    requires
        now.is_valid(),
        later.is_valid(),
        object.metadata.last_modified.is_valid(),
        later.is_at_or_after(now),
        !now.in_leap_second(),
        !later.in_leap_second(),
        !loses_leap_second_at_midnight(now, later, object.metadata.last_modified),
        is_eligible(object, now, min_age, ranges),
        smaller_min_age <= min_age,
    ensures
        is_eligible(object, later, smaller_min_age, ranges),
{
    law_age_shrinks_at_midnight(now, later, object.metadata.last_modified);
    law_eligible_objects_stay_eligible(object, now, later, min_age, smaller_min_age, ranges);
}

} // verus!
