//! What the decisions come to, in the terms of those who rely on them: numbers of files, sizes,
//! instants, and the request as it was made.
use std::ops::Bound;
use vstd::prelude::*;

use crate::collection::{Disposal, Remaining, Step};
use crate::laws::{
    law_deletions, law_every_eligible_object_is_deleted, law_only_eligible_objects_are_deleted,
    lemma_filter_membership,
};
use crate::model::{
    after_disposal, after_listing, begin_pass, deletions, eligible_objects, ids_of, is_eligible,
    is_referenced, kind_of, may_be_deleted, of_kind, pass_deletions, survivors, CollectionView,
    DisposalView, FilterOutcome, RemainingView, StepView, WalObject, WalObjectKind,
};
use crate::request::{WalFileId, WalFileRange, WalGcPolicy};
use crate::time::{elapsed_nanos, Timestamp};

verus! {

/// A range holds exactly the numbers between its ends, for each pair of ends.
pub proof fn law_ranges_hold_what_lies_between_their_ends(start: u64, end: u64, id: u64)
    ensures
        WalFileRange(Bound::Included(start), Bound::Included(end)).contains(id) <==> start <= id
            <= end,
        WalFileRange(Bound::Included(start), Bound::Excluded(end)).contains(id) <==> start <= id
            < end,
        WalFileRange(Bound::Included(start), Bound::Unbounded).contains(id) <==> start <= id,
        WalFileRange(Bound::Excluded(start), Bound::Included(end)).contains(id) <==> start < id
            <= end,
        WalFileRange(Bound::Excluded(start), Bound::Excluded(end)).contains(id) <==> start < id
            < end,
        WalFileRange(Bound::Excluded(start), Bound::Unbounded).contains(id) <==> start < id,
        WalFileRange(Bound::Unbounded, Bound::Included(end)).contains(id) <==> id <= end,
        WalFileRange(Bound::Unbounded, Bound::Excluded(end)).contains(id) <==> id < end,
        WalFileRange(Bound::Unbounded, Bound::Unbounded).contains(id),
{
}

/// A range that holds two numbers holds every number between them.
pub proof fn law_ranges_have_no_gaps(range: WalFileRange, low: u64, id: u64, high: u64)
    requires
        range.contains(low),
        range.contains(high),
        low <= id <= high,
    ensures
        range.contains(id),
{
}

/// No ranges protect nothing, one range protects what it holds, and two lists of ranges together
/// protect what either of them protects.
pub proof fn law_references_add_up(
    range: WalFileRange,
    left: Seq<WalFileRange>,
    right: Seq<WalFileRange>,
    id: u64,
)
    ensures
        !is_referenced(Seq::empty(), id),
        is_referenced(seq![range], id) <==> range.contains(id),
        is_referenced(left + right, id) <==> is_referenced(left, id) || is_referenced(right, id),
{
    if range.contains(id) {
        assert(seq![range][0].contains(id));
    }
    if is_referenced(left, id) {
        let i = choose|i: int| 0 <= i < left.len() && (#[trigger] left[i]).contains(id);
        assert((left + right)[i].contains(id));
    }
    if is_referenced(right, id) {
        let i = choose|i: int| 0 <= i < right.len() && (#[trigger] right[i]).contains(id);
        assert((left + right)[left.len() + i].contains(id));
    }
    if is_referenced(left + right, id) {
        let i = choose|i: int|
            0 <= i < (left + right).len() && (#[trigger] (left + right)[i]).contains(id);
        if i < left.len() {
            assert(left[i].contains(id));
        } else {
            assert(right[i - left.len()].contains(id));
        }
    }
}

/// An identifier made of a number is that number.
pub proof fn law_identifiers_are_numbers(value: u64)
    ensures
        <WalFileId as vstd::std_specs::convert::FromSpec<u64>>::obeys_from_spec(),
        <WalFileId as vstd::std_specs::convert::FromSpec<u64>>::from_spec(value).0 == value,
{
}

/// Valid instants are those of the years -262143 to 262142, each up to the end of a leap second;
/// one of two instants is at or after the other, and both are only where they are the same.
pub proof fn law_instants_are_ordered(a: Timestamp, b: Timestamp)
    ensures
        a.is_valid() <==> -8_334_601_228_800 <= a.secs() <= 8_210_266_876_799 && 0 <= a.nanos()
            < 2_000_000_000,
        a.in_leap_second() <==> a.nanos() >= 1_000_000_000,
        a.is_at_or_after(b) || b.is_at_or_after(a),
        a.is_at_or_after(b) && b.is_at_or_after(a) <==> a.secs() == b.secs() && a.nanos()
            == b.nanos(),
        a.secs() > b.secs() ==> a.is_at_or_after(b),
        a.secs() == b.secs() && a.nanos() > b.nanos() ==> a.is_at_or_after(b),
{
}

/// The age of an object in nanoseconds is the difference of the two instants, and one second more
/// or less where a leap second that one of them lies in separates their times of day.
pub proof fn law_age_in_nanoseconds(now: Timestamp, then: Timestamp)
    ensures
        elapsed_nanos(now, then) == (now.secs() - then.secs()) * 1_000_000_000 + now.nanos()
            - then.nanos() + (if then.nanos() >= 1_000_000_000 && now.secs() % 86_400 > then.secs()
            % 86_400 {
            1_000_000_000int
        } else if now.nanos() >= 1_000_000_000 && now.secs() % 86_400 < then.secs() % 86_400 {
            -1_000_000_000int
        } else {
            0int
        }),
{
}

/// Seen from its other end, the time between two instants changes its sign and nothing else.
pub proof fn law_ages_are_antisymmetric(now: Timestamp, then: Timestamp)
    ensures
        elapsed_nanos(now, then) == -elapsed_nanos(then, now),
{
}

/// An object is eligible exactly if its age is more than the minimum age and no range holds its
/// number, whatever the minimum age is.
pub proof fn law_eligibility(
    object: WalObject,
    now: Timestamp,
    min_age: int,
    ranges: Seq<WalFileRange>,
)
    ensures
        is_eligible(object, now, min_age, ranges) <==> {
            &&& elapsed_nanos(now, object.metadata.last_modified) > min_age
            &&& forall|i: int|
                0 <= i < ranges.len() ==> !(#[trigger] ranges[i]).contains(object.id.0)
        },
{
}

/// The smallest change of a minimum age matters: an object is eligible under a minimum age just
/// below its own age, and not under its own age.
pub proof fn law_the_age_is_the_limit(object: WalObject, now: Timestamp)
    ensures
        ({
            let age = elapsed_nanos(now, object.metadata.last_modified);
            &&& is_eligible(object, now, age - 1, Seq::empty())
            &&& !is_eligible(object, now, age, Seq::empty())
        }),
{
    law_eligibility(
        object,
        now,
        elapsed_nanos(now, object.metadata.last_modified) - 1,
        Seq::empty(),
    );
}

/// Filtering a concatenation gives the concatenation of what filtering its parts gives, and
/// filtering one element keeps it or not.
proof fn lemma_filter_parts<A>(a: Seq<A>, b: Seq<A>, x: A, pred: spec_fn(A) -> bool)
    ensures
        (a + b).filter(pred) == a.filter(pred) + b.filter(pred),
        seq![x].filter(pred) == if pred(x) {
            seq![x]
        } else {
            Seq::<A>::empty()
        },
        Seq::<A>::empty().filter(pred) == Seq::<A>::empty(),
{
    Seq::filter_distributes_over_add(a, b, pred);
    reveal(Seq::filter);
    assert(Seq::<A>::empty().filter(pred) =~= Seq::<A>::empty());
    assert(seq![x].drop_last() =~= Seq::<A>::empty());
    assert(seq![x].filter(pred) =~= if pred(x) {
        seq![x]
    } else {
        Seq::<A>::empty()
    });
}

/// The fences are the objects of no bytes and the WAL SSTs are the others, each as often and in
/// the order in which they are listed: one object goes where its size puts it, and two listings
/// together are parted as each is by itself.
pub proof fn law_classes_go_by_size(a: Seq<WalObject>, b: Seq<WalObject>, object: WalObject)
    ensures
        of_kind(seq![object], WalObjectKind::Fence) == if object.metadata.size == 0 {
            seq![object]
        } else {
            Seq::<WalObject>::empty()
        },
        of_kind(seq![object], WalObjectKind::Wal) == if object.metadata.size > 0 {
            seq![object]
        } else {
            Seq::<WalObject>::empty()
        },
        of_kind(a + b, WalObjectKind::Fence) == of_kind(a, WalObjectKind::Fence) + of_kind(
            b,
            WalObjectKind::Fence,
        ),
        of_kind(a + b, WalObjectKind::Wal) == of_kind(a, WalObjectKind::Wal) + of_kind(
            b,
            WalObjectKind::Wal,
        ),
        of_kind(a, WalObjectKind::Fence).contains(object) <==> a.contains(object)
            && object.metadata.size == 0,
        of_kind(a, WalObjectKind::Wal).contains(object) <==> a.contains(object)
            && object.metadata.size > 0,
        kind_of(object) == WalObjectKind::Fence <==> object.metadata.size == 0,
        kind_of(object) == WalObjectKind::Wal <==> object.metadata.size > 0,
{
    let is_fence = |object: WalObject| kind_of(object) == WalObjectKind::Fence;
    let is_wal = |object: WalObject| kind_of(object) == WalObjectKind::Wal;
    lemma_filter_parts(a, b, object, is_fence);
    lemma_filter_parts(a, b, object, is_wal);
    lemma_filter_membership(a, is_fence, object);
    lemma_filter_membership(a, is_wal, object);
}

/// The objects that may be deleted are picked one by one, each as often and in the order in which
/// they are listed: one object is picked exactly if its age is more than the minimum age and no
/// range holds its number.
pub proof fn law_objects_are_picked_one_by_one(
    a: Seq<WalObject>,
    b: Seq<WalObject>,
    object: WalObject,
    now: Timestamp,
    min_age: int,
    ranges: Seq<WalFileRange>,
)
    ensures
        eligible_objects(seq![object], now, min_age, ranges) == if elapsed_nanos(
            now,
            object.metadata.last_modified,
        ) > min_age && forall|i: int|
            0 <= i < ranges.len() ==> !(#[trigger] ranges[i]).contains(object.id.0) {
            seq![object]
        } else {
            Seq::<WalObject>::empty()
        },
        eligible_objects(a + b, now, min_age, ranges) == eligible_objects(a, now, min_age, ranges)
            + eligible_objects(b, now, min_age, ranges),
        eligible_objects(Seq::empty(), now, min_age, ranges) == Seq::<WalObject>::empty(),
{
    law_eligibility(object, now, min_age, ranges);
    lemma_filter_parts(
        a,
        b,
        object,
        |object: WalObject| is_eligible(object, now, min_age, ranges),
    );
}

/// There is one identifier for each object, in the same order.
pub proof fn law_identifiers_follow_the_objects(objects: Seq<WalObject>)
    ensures
        ids_of(objects).len() == objects.len(),
        forall|i: int| 0 <= i < objects.len() ==> #[trigger] ids_of(objects)[i] == objects[i].id,
{
}

/// An object is left exactly if its identifier is not among those deleted.
pub proof fn law_an_object_survives_unless_named(
    a: Seq<WalObject>,
    b: Seq<WalObject>,
    object: WalObject,
    deleted: Seq<WalFileId>,
)
    ensures
        survivors(seq![object], deleted) == if deleted.contains(object.id) {
            Seq::<WalObject>::empty()
        } else {
            seq![object]
        },
        survivors(a + b, deleted) == survivors(a, deleted) + survivors(b, deleted),
{
    lemma_filter_parts(a, b, object, |object: WalObject| !deleted.contains(object.id));
}

/// What is seen of a step is what it holds: a deletion is a deletion of just those objects, a
/// report is a report, and a question to the filter is about just those candidates.
pub proof fn law_steps_are_what_they_hold(step: Step)
    ensures
        match step {
            Step::Finished => step@ == StepView::Finished,
            Step::InvalidDuration => step@ == StepView::InvalidDuration,
            Step::Filter { candidates, on_verdict } => step@ == (StepView::Filter {
                candidates: candidates@,
                kind: on_verdict.kind(),
                dry_run: on_verdict.dry_run(),
                remaining: on_verdict.remaining(),
            }),
            Step::Dispose { kind, disposal, on_disposed } => step@ == (StepView::Dispose {
                kind,
                disposal: match disposal {
                    Disposal::DryRun { ids, announce, explain_fences } => DisposalView::DryRun {
                        ids: ids@,
                        announce,
                        explain_fences,
                    },
                    Disposal::Delete { ids } => DisposalView::Delete { ids: ids@ },
                },
                remaining: on_disposed@,
            }),
        },
{
}

/// What is seen of the rest of a collection is what it holds.
pub proof fn law_the_rest_is_what_it_holds(remaining: Remaining)
    ensures
        remaining@.gc_filter == remaining.gc_filter,
        remaining@.utc_now == remaining.utc_now,
        remaining@.referenced_ranges == remaining.referenced_ranges@,
        remaining.fence is None <==> remaining@.fence is None,
        remaining.fence matches Some((fences, policy)) ==> remaining@.fence == Some(
            (fences@, policy),
        ),
{
}

/// A pass under a minimum age of more than `i64::MAX` milliseconds ends the collection. Any other
/// pass that has a filter asks it, whatever the class and the policy; and one that has none
/// reports its candidates in a dry run and deletes them otherwise.
pub proof fn law_a_pass_asks_the_filter_first(
    kind: WalObjectKind,
    objects: Seq<WalObject>,
    policy: WalGcPolicy,
    remaining: RemainingView,
)
    ensures
        ({
            let step = begin_pass(kind, objects, policy, remaining);
            let candidates = eligible_objects(
                objects,
                remaining.utc_now,
                policy.min_age.as_nanos(),
                remaining.referenced_ranges,
            );
            let valid = policy.min_age.as_nanos() <= 9_223_372_036_854_775_807_000_000int;
            &&& !valid <==> step == StepView::InvalidDuration
            &&& valid && remaining.gc_filter ==> step == (StepView::Filter {
                candidates,
                kind,
                dry_run: policy.dry_run,
                remaining,
            })
            &&& valid && !remaining.gc_filter ==> {
                &&& step matches StepView::Dispose { kind: k, disposal: d, remaining: r }
                &&& k == kind
                &&& r == remaining
                &&& policy.dry_run ==> d == (DisposalView::DryRun {
                    ids: ids_of(candidates),
                    announce: candidates.len() > 0,
                    explain_fences: candidates.len() > 0 && kind == WalObjectKind::Fence,
                })
                &&& !policy.dry_run ==> d == (DisposalView::Delete { ids: ids_of(candidates) })
            }
        }),
{
}

/// Once the filter has spoken, just what it let through is reported or deleted.
pub proof fn law_the_filter_has_the_last_word(
    retained: Seq<WalObject>,
    kind: WalObjectKind,
    dry_run: bool,
    remaining: RemainingView,
)
    ensures
        crate::model::after_filter(retained, kind, dry_run, remaining) == (StepView::Dispose {
            kind,
            disposal: if dry_run {
                DisposalView::DryRun {
                    ids: ids_of(retained),
                    announce: retained.len() > 0,
                    explain_fences: retained.len() > 0 && kind == WalObjectKind::Fence,
                }
            } else {
                DisposalView::Delete { ids: ids_of(retained) }
            },
            remaining,
        }),
{
}

/// The WAL SSTs come first, under the request's own policy for them, then the fences under theirs;
/// both passes go by the same time and the same ranges.
pub proof fn law_order_of_the_passes(
    collection: CollectionView,
    utc_now: Timestamp,
    listing: Seq<WalObject>,
)
    ensures
        ({
            let last = RemainingView {
                gc_filter: collection.gc_filter,
                utc_now,
                referenced_ranges: collection.referenced_ranges,
                fence: None,
            };
            let step = after_listing(collection, utc_now, listing);
            let fences = of_kind(listing, WalObjectKind::Fence);
            let wals = of_kind(listing, WalObjectKind::Wal);
            &&& collection.wal is None && collection.fence is None ==> step == StepView::Finished
            &&& collection.fence is None ==> (collection.wal matches Some(wal) ==> step
                == begin_pass(WalObjectKind::Wal, wals, wal, last))
            &&& collection.fence matches Some(fence) ==> {
                let rest = RemainingView { fence: Some((fences, fence)), ..last };
                &&& after_disposal(rest) == begin_pass(WalObjectKind::Fence, fences, fence, last)
                &&& collection.wal is None ==> step == after_disposal(rest)
                &&& collection.wal matches Some(wal) ==> step == begin_pass(
                    WalObjectKind::Wal,
                    wals,
                    wal,
                    rest,
                )
            }
            &&& after_disposal(last) == StepView::Finished
        }),
{
}

/// Once a pass is done, the fences are collected if they are still to be, under their policy and
/// by the same time and ranges; they are collected once, and then the collection is finished.
pub proof fn law_fences_are_collected_once(remaining: RemainingView)
    ensures
        remaining.fence is None ==> after_disposal(remaining) == StepView::Finished,
        remaining.fence matches Some((fences, policy)) ==> after_disposal(remaining) == begin_pass(
            WalObjectKind::Fence,
            fences,
            policy,
            RemainingView {
                gc_filter: remaining.gc_filter,
                utc_now: remaining.utc_now,
                referenced_ranges: remaining.referenced_ranges,
                fence: None,
            },
        ),
{
}

/// From a step on, a collection deletes what the step hands to the store and what follows it. A
/// report deletes nothing, and a question to the filter nothing but what follows the answer.
pub proof fn law_what_a_step_deletes(
    ids: Seq<WalFileId>,
    announce: bool,
    explain_fences: bool,
    candidates: Seq<WalObject>,
    kind: WalObjectKind,
    dry_run: bool,
    remaining: RemainingView,
    filter: FilterOutcome,
)
    ensures
        deletions(StepView::Finished, filter) == Seq::<WalFileId>::empty(),
        deletions(StepView::InvalidDuration, filter) == Seq::<WalFileId>::empty(),
        deletions(
            StepView::Dispose { kind, disposal: DisposalView::Delete { ids }, remaining },
            filter,
        ) == ids + deletions(after_disposal(remaining), filter),
        deletions(
            StepView::Dispose {
                kind,
                disposal: DisposalView::DryRun { ids, announce, explain_fences },
                remaining,
            },
            filter,
        ) == deletions(after_disposal(remaining), filter),
        deletions(StepView::Filter { candidates, kind, dry_run, remaining }, filter) == if dry_run {
            deletions(after_disposal(remaining), filter)
        } else {
            ids_of(filter(kind, candidates)) + deletions(after_disposal(remaining), filter)
        },
{
    reveal_with_fuel(deletions, 3);
    let rest = deletions(after_disposal(remaining), filter);
    assert(Seq::<WalFileId>::empty() + rest =~= rest);
}

/// Without a filter, the pass over a listing of one object deletes the object if it is of the
/// pass's class and may be deleted.
proof fn lemma_pass_over_one_object(
    kind: WalObjectKind,
    collection: CollectionView,
    utc_now: Timestamp,
    object: WalObject,
    filter: FilterOutcome,
)
    requires
        !collection.gc_filter,
    ensures
        pass_deletions(kind, collection, utc_now, seq![object], filter) == if kind_of(object)
            == kind && may_be_deleted(collection, utc_now, object) {
            seq![object.id]
        } else {
            Seq::<WalFileId>::empty()
        },
{
    let empty = Seq::<WalObject>::empty();
    let listing = seq![object];
    lemma_filter_parts(empty, empty, object, |object: WalObject| kind_of(object) == kind);
    assert(ids_of(empty) =~= Seq::<WalFileId>::empty());
    assert(ids_of(listing) =~= seq![object.id]);
    if let Some(policy) = crate::model::policy_for(collection, kind) {
        let age = policy.min_age.as_nanos();
        let ranges = collection.referenced_ranges;
        lemma_filter_parts(
            empty,
            empty,
            object,
            |object: WalObject| is_eligible(object, utc_now, age, ranges),
        );
    }
}

/// Without a filter, an object of a listing of one is deleted exactly if its class has a policy
/// that is no dry run, it is older than that policy's minimum age, and no range holds its number.
/// A minimum age of more than `i64::MAX` milliseconds ends the collection.
pub proof fn law_deletion_of_one_object(
    collection: CollectionView,
    utc_now: Timestamp,
    object: WalObject,
    filter: FilterOutcome,
)
    requires
        !collection.gc_filter,
    ensures
        deletions(after_listing(collection, utc_now, seq![object]), filter) == if {
            &&& collection.wal matches Some(wal) ==> wal.min_age.as_nanos()
                <= 9_223_372_036_854_775_807_000_000int
            &&& object.metadata.size == 0 ==> {
                &&& collection.fence matches Some(policy)
                &&& !policy.dry_run
                &&& policy.min_age.as_nanos() <= 9_223_372_036_854_775_807_000_000int
                &&& elapsed_nanos(utc_now, object.metadata.last_modified)
                    > policy.min_age.as_nanos()
            }
            &&& object.metadata.size > 0 ==> {
                &&& collection.wal matches Some(policy)
                &&& !policy.dry_run
                &&& elapsed_nanos(utc_now, object.metadata.last_modified)
                    > policy.min_age.as_nanos()
            }
            &&& forall|i: int|
                0 <= i < collection.referenced_ranges.len() ==> !(
                #[trigger] collection.referenced_ranges[i]).contains(object.id.0)
        } {
            seq![object.id]
        } else {
            Seq::<WalFileId>::empty()
        },
{
    let empty = Seq::<WalFileId>::empty();
    let one = seq![object.id];
    law_deletions(collection, utc_now, seq![object], filter);
    lemma_pass_over_one_object(WalObjectKind::Wal, collection, utc_now, object, filter);
    lemma_pass_over_one_object(WalObjectKind::Fence, collection, utc_now, object, filter);
    assert(empty + empty =~= empty);
    assert(one + empty =~= one);
    assert(empty + one =~= one);
    assert(is_referenced(collection.referenced_ranges, object.id.0) <==> !(forall|i: int|
        0 <= i < collection.referenced_ranges.len() ==> !(
        #[trigger] collection.referenced_ranges[i]).contains(object.id.0)));
}

/// Without a filter, under one policy, two listings together lose what each loses by itself, in
/// the same order; and an empty listing loses nothing.
pub proof fn law_objects_are_deleted_independently(
    collection: CollectionView,
    utc_now: Timestamp,
    a: Seq<WalObject>,
    b: Seq<WalObject>,
    filter: FilterOutcome,
)
    requires
        !collection.gc_filter,
        collection.wal is None || collection.fence is None,
    ensures
        deletions(after_listing(collection, utc_now, a + b), filter) == deletions(
            after_listing(collection, utc_now, a),
            filter,
        ) + deletions(after_listing(collection, utc_now, b), filter),
        deletions(after_listing(collection, utc_now, Seq::empty()), filter)
            == Seq::<WalFileId>::empty(),
{
    let empty = Seq::<WalObject>::empty();
    law_deletions(collection, utc_now, a, filter);
    law_deletions(collection, utc_now, b, filter);
    law_deletions(collection, utc_now, a + b, filter);
    law_deletions(collection, utc_now, empty, filter);
    assert forall|kind: WalObjectKind| #[trigger]
        pass_deletions(kind, collection, utc_now, a + b, filter) == pass_deletions(
            kind,
            collection,
            utc_now,
            a,
            filter,
        ) + pass_deletions(kind, collection, utc_now, b, filter) && pass_deletions(
            kind,
            collection,
            utc_now,
            empty,
            filter,
        ) == Seq::<WalFileId>::empty() by {
        let nothing = arbitrary::<WalObject>();
        lemma_filter_parts(a, b, nothing, |object: WalObject| kind_of(object) == kind);
        if let Some(policy) = crate::model::policy_for(collection, kind) {
            let age = policy.min_age.as_nanos();
            let ranges = collection.referenced_ranges;
            let left = of_kind(a, kind);
            let right = of_kind(b, kind);
            law_objects_are_picked_one_by_one(left, right, nothing, utc_now, age, ranges);
            assert(ids_of(
                eligible_objects(left, utc_now, age, ranges) + eligible_objects(
                    right,
                    utc_now,
                    age,
                    ranges,
                ),
            ) =~= ids_of(eligible_objects(left, utc_now, age, ranges)) + ids_of(
                eligible_objects(right, utc_now, age, ranges),
            ));
            assert(ids_of(empty) =~= Seq::<WalFileId>::empty());
        }
        assert(Seq::<WalFileId>::empty() + Seq::<WalFileId>::empty() =~= Seq::<WalFileId>::empty());
    }
    assert(deletions(after_listing(collection, utc_now, a + b), filter) =~= deletions(
        after_listing(collection, utc_now, a),
        filter,
    ) + deletions(after_listing(collection, utc_now, b), filter));
    assert(deletions(after_listing(collection, utc_now, empty), filter) =~= Seq::<
        WalFileId,
    >::empty());
}

/// A collection under two policies deletes what one under the policy for WAL SSTs alone deletes,
/// then what one under the policy for fences alone deletes. A minimum age for WAL SSTs of more
/// than `i64::MAX` milliseconds ends it before anything is deleted.
pub proof fn law_policies_do_not_interact(
    collection: CollectionView,
    utc_now: Timestamp,
    listing: Seq<WalObject>,
    filter: FilterOutcome,
)
    ensures
        deletions(after_listing(collection, utc_now, listing), filter) == if collection.wal matches
            Some(wal) && wal.min_age.as_nanos() > 9_223_372_036_854_775_807_000_000int {
            Seq::<WalFileId>::empty()
        } else {
            deletions(
                after_listing(
                    CollectionView { fence: None, ..collection },
                    utc_now,
                    listing,
                ),
                filter,
            ) + deletions(
                after_listing(CollectionView { wal: None, ..collection }, utc_now, listing),
                filter,
            )
        },
{
    let wal_only = CollectionView { fence: None, ..collection };
    let fence_only = CollectionView { wal: None, ..collection };
    law_deletions(collection, utc_now, listing, filter);
    law_deletions(wal_only, utc_now, listing, filter);
    law_deletions(fence_only, utc_now, listing, filter);
    let wal = pass_deletions(WalObjectKind::Wal, collection, utc_now, listing, filter);
    let fence = pass_deletions(WalObjectKind::Fence, collection, utc_now, listing, filter);
    assert(wal + Seq::<WalFileId>::empty() =~= wal);
    assert(Seq::<WalFileId>::empty() + fence =~= fence);
    assert(Seq::<WalFileId>::empty() + Seq::<WalFileId>::empty() =~= Seq::<WalFileId>::empty());
}

/// A dry run deletes what no policy at all deletes, whatever the policy for the other class is.
pub proof fn law_a_dry_run_deletes_as_no_policy_does(
    collection: CollectionView,
    utc_now: Timestamp,
    listing: Seq<WalObject>,
    filter: FilterOutcome,
)
    ensures
        collection.fence matches Some(fence) ==> fence.dry_run ==> deletions(
            after_listing(collection, utc_now, listing),
            filter,
        ) == deletions(
            after_listing(CollectionView { fence: None, ..collection }, utc_now, listing),
            filter,
        ),
        collection.wal matches Some(wal) ==> wal.dry_run && wal.min_age.as_nanos()
            <= 9_223_372_036_854_775_807_000_000int ==> deletions(
            after_listing(collection, utc_now, listing),
            filter,
        ) == deletions(
            after_listing(CollectionView { wal: None, ..collection }, utc_now, listing),
            filter,
        ),
{
    law_deletions(collection, utc_now, listing, filter);
    law_deletions(CollectionView { fence: None, ..collection }, utc_now, listing, filter);
    law_deletions(CollectionView { wal: None, ..collection }, utc_now, listing, filter);
}

/// Without a filter, an identifier is deleted exactly if an object of the listing has it whose
/// size, age and number call for its deletion under the request's policy for its size.
pub proof fn law_deleted_by_size_age_and_number(
    collection: CollectionView,
    utc_now: Timestamp,
    listing: Seq<WalObject>,
    filter: FilterOutcome,
    id: WalFileId,
)
    requires
        !collection.gc_filter,
        collection.wal matches Some(wal) ==> wal.min_age.as_nanos()
            <= 9_223_372_036_854_775_807_000_000int,
    ensures
        deletions(after_listing(collection, utc_now, listing), filter).contains(id) <==> exists|
            object: WalObject,
        | #[trigger]
            listing.contains(object) && object.id == id && {
                &&& object.metadata.size == 0 ==> {
                    &&& collection.fence matches Some(policy)
                    &&& !policy.dry_run
                    &&& policy.min_age.as_nanos() <= 9_223_372_036_854_775_807_000_000int
                    &&& elapsed_nanos(utc_now, object.metadata.last_modified)
                        > policy.min_age.as_nanos()
                }
                &&& object.metadata.size > 0 ==> {
                    &&& collection.wal matches Some(policy)
                    &&& !policy.dry_run
                    &&& elapsed_nanos(utc_now, object.metadata.last_modified)
                        > policy.min_age.as_nanos()
                }
                &&& forall|i: int|
                    0 <= i < collection.referenced_ranges.len() ==> !(
                    #[trigger] collection.referenced_ranges[i]).contains(object.id.0)
            },
{
    let deleted = deletions(after_listing(collection, utc_now, listing), filter);
    if deleted.contains(id) {
        law_only_eligible_objects_are_deleted(collection, utc_now, listing, filter, id);
        let object = choose|object: WalObject| #[trigger]
            listing.contains(object) && object.id == id && may_be_deleted(
                collection,
                utc_now,
                object,
            );
        assert(forall|i: int|
            0 <= i < collection.referenced_ranges.len() ==> !(
            #[trigger] collection.referenced_ranges[i]).contains(object.id.0));
    }
    assert forall|object: WalObject| #[trigger] listing.contains(object) && object.id == id && {
        &&& object.metadata.size == 0 ==> {
            &&& collection.fence matches Some(policy)
            &&& !policy.dry_run
            &&& policy.min_age.as_nanos() <= 9_223_372_036_854_775_807_000_000int
            &&& elapsed_nanos(utc_now, object.metadata.last_modified) > policy.min_age.as_nanos()
        }
        &&& object.metadata.size > 0 ==> {
            &&& collection.wal matches Some(policy)
            &&& !policy.dry_run
            &&& elapsed_nanos(utc_now, object.metadata.last_modified) > policy.min_age.as_nanos()
        }
        &&& forall|i: int|
            0 <= i < collection.referenced_ranges.len() ==> !(
            #[trigger] collection.referenced_ranges[i]).contains(object.id.0)
    } implies deleted.contains(id) by {
        law_every_eligible_object_is_deleted(collection, utc_now, listing, filter, object);
    }
}

/// Without a filter, an object written outside a leap second is deleted at an instant outside a
/// leap second if more nanoseconds lie between the two than its policy's minimum age has, however
/// long that is, and if its number lies outside every range.
pub proof fn law_old_unreferenced_objects_go(
    collection: CollectionView,
    utc_now: Timestamp,
    listing: Seq<WalObject>,
    filter: FilterOutcome,
    object: WalObject,
    policy: WalGcPolicy,
)
    requires
        !collection.gc_filter,
        collection.wal matches Some(wal) ==> wal.min_age.as_nanos()
            <= 9_223_372_036_854_775_807_000_000int,
        listing.contains(object),
        object.metadata.size == 0 ==> collection.fence == Some(policy),
        object.metadata.size > 0 ==> collection.wal == Some(policy),
        !policy.dry_run,
        policy.min_age.as_nanos() <= 9_223_372_036_854_775_807_000_000int,
        utc_now.nanos() < 1_000_000_000,
        object.metadata.last_modified.nanos() < 1_000_000_000,
        (utc_now.secs() * 1_000_000_000 + utc_now.nanos()) - (
        object.metadata.last_modified.secs() * 1_000_000_000
            + object.metadata.last_modified.nanos()) > policy.min_age.as_nanos(),
        forall|i: int|
            0 <= i < collection.referenced_ranges.len() ==> {
                ||| match (#[trigger] collection.referenced_ranges[i]).0 {
                    Bound::Included(start) => object.id.0 < start,
                    Bound::Excluded(start) => object.id.0 <= start,
                    Bound::Unbounded => false,
                }
                ||| match collection.referenced_ranges[i].1 {
                    Bound::Included(end) => object.id.0 > end,
                    Bound::Excluded(end) => object.id.0 >= end,
                    Bound::Unbounded => false,
                }
            },
    ensures
        deletions(after_listing(collection, utc_now, listing), filter).contains(object.id),
{
    law_age_in_nanoseconds(utc_now, object.metadata.last_modified);
    law_deleted_by_size_age_and_number(collection, utc_now, listing, filter, object.id);
}

/// No object is deleted whose number lies between the ends of a range, if the filter retains only
/// what it is shown.
pub proof fn law_files_between_the_ends_of_a_range_stay(
    collection: CollectionView,
    utc_now: Timestamp,
    listing: Seq<WalObject>,
    filter: FilterOutcome,
    id: WalFileId,
    i: int,
)
    requires
        collection.gc_filter ==> forall|kind: WalObjectKind, shown: Seq<WalObject>, o: WalObject|
            #[trigger] filter(kind, shown).contains(o) ==> shown.contains(o),
        0 <= i < collection.referenced_ranges.len(),
        match collection.referenced_ranges[i].0 {
            Bound::Included(start) => start <= id.0,
            Bound::Excluded(start) => start < id.0,
            Bound::Unbounded => true,
        },
        match collection.referenced_ranges[i].1 {
            Bound::Included(end) => id.0 <= end,
            Bound::Excluded(end) => id.0 < end,
            Bound::Unbounded => true,
        },
    ensures
        !deletions(after_listing(collection, utc_now, listing), filter).contains(id),
{
    if deletions(after_listing(collection, utc_now, listing), filter).contains(id) {
        law_only_eligible_objects_are_deleted(collection, utc_now, listing, filter, id);
        assert(collection.referenced_ranges[i].contains(id.0));
    }
}

/// No object of more than zero bytes is deleted without a policy for WAL SSTs that is no dry run,
/// and no object of zero bytes without a policy for fences that is no dry run, whatever the other
/// policy is. Nor is an object deleted that is not older than the policy for its size asks.
pub proof fn law_objects_stay_without_a_policy_for_their_size(
    collection: CollectionView,
    utc_now: Timestamp,
    listing: Seq<WalObject>,
    filter: FilterOutcome,
    object: WalObject,
)
    requires
        collection.gc_filter ==> forall|kind: WalObjectKind, shown: Seq<WalObject>, o: WalObject|
            #[trigger] filter(kind, shown).contains(o) ==> shown.contains(o),
        forall|i: int, j: int|
            0 <= i < listing.len() && 0 <= j < listing.len() && i != j ==> (
            #[trigger] listing[i]).id != (#[trigger] listing[j]).id,
        listing.contains(object),
        object.metadata.size > 0 ==> (collection.wal matches Some(policy) ==> policy.dry_run
            || elapsed_nanos(utc_now, object.metadata.last_modified) <= policy.min_age.as_nanos()),
        object.metadata.size == 0 ==> (collection.fence matches Some(policy) ==> policy.dry_run
            || elapsed_nanos(utc_now, object.metadata.last_modified) <= policy.min_age.as_nanos()),
    ensures
        !deletions(after_listing(collection, utc_now, listing), filter).contains(object.id),
{
    if deletions(after_listing(collection, utc_now, listing), filter).contains(object.id) {
        law_only_eligible_objects_are_deleted(collection, utc_now, listing, filter, object.id);
        let other = choose|other: WalObject| #[trigger]
            listing.contains(other) && other.id == object.id && may_be_deleted(
                collection,
                utc_now,
                other,
            );
        let i = choose|i: int| 0 <= i < listing.len() && listing[i] == object;
        let j = choose|j: int| 0 <= j < listing.len() && listing[j] == other;
        assert(listing[i].id == listing[j].id);
    }
}

/// With a filter, and under one policy that is no dry run, just what the filter lets through is
/// deleted, in the order in which it gives it: the filter is shown the candidates of the policy's
/// class, whatever the policy is.
pub proof fn law_only_what_the_filter_allows_is_deleted(
    collection: CollectionView,
    utc_now: Timestamp,
    listing: Seq<WalObject>,
    filter: FilterOutcome,
    policy: WalGcPolicy,
)
    requires
        collection.gc_filter,
        !policy.dry_run,
        policy.min_age.as_nanos() <= 9_223_372_036_854_775_807_000_000int,
    ensures
        collection.wal == Some(policy) && collection.fence is None ==> deletions(
            after_listing(collection, utc_now, listing),
            filter,
        ) == ids_of(
            filter(
                WalObjectKind::Wal,
                eligible_objects(
                    of_kind(listing, WalObjectKind::Wal),
                    utc_now,
                    policy.min_age.as_nanos(),
                    collection.referenced_ranges,
                ),
            ),
        ),
        collection.fence == Some(policy) && collection.wal is None ==> deletions(
            after_listing(collection, utc_now, listing),
            filter,
        ) == ids_of(
            filter(
                WalObjectKind::Fence,
                eligible_objects(
                    of_kind(listing, WalObjectKind::Fence),
                    utc_now,
                    policy.min_age.as_nanos(),
                    collection.referenced_ranges,
                ),
            ),
        ),
{
    law_deletions(collection, utc_now, listing, filter);
    let deleted = deletions(after_listing(collection, utc_now, listing), filter);
    let wal = pass_deletions(WalObjectKind::Wal, collection, utc_now, listing, filter);
    let fence = pass_deletions(WalObjectKind::Fence, collection, utc_now, listing, filter);
    assert(wal + Seq::<WalFileId>::empty() =~= wal);
    assert(Seq::<WalFileId>::empty() + fence =~= fence);
}

/// With a filter, every identifier that is deleted is that of an object that the filter let
/// through for the object's class.
pub proof fn law_every_deletion_was_allowed(
    collection: CollectionView,
    utc_now: Timestamp,
    listing: Seq<WalObject>,
    filter: FilterOutcome,
    id: WalFileId,
)
    requires
        collection.gc_filter,
        deletions(after_listing(collection, utc_now, listing), filter).contains(id),
    ensures
        ({
            ||| collection.wal matches Some(policy) && !policy.dry_run && exists|o: WalObject|
                #[trigger]
                filter(
                    WalObjectKind::Wal,
                    eligible_objects(
                        of_kind(listing, WalObjectKind::Wal),
                        utc_now,
                        policy.min_age.as_nanos(),
                        collection.referenced_ranges,
                    ),
                ).contains(o) && o.id == id
            ||| collection.fence matches Some(policy) && !policy.dry_run && exists|o: WalObject|
                #[trigger]
                filter(
                    WalObjectKind::Fence,
                    eligible_objects(
                        of_kind(listing, WalObjectKind::Fence),
                        utc_now,
                        policy.min_age.as_nanos(),
                        collection.referenced_ranges,
                    ),
                ).contains(o) && o.id == id
        }),
{
    law_deletions(collection, utc_now, listing, filter);
    let wal = pass_deletions(WalObjectKind::Wal, collection, utc_now, listing, filter);
    let fence = pass_deletions(WalObjectKind::Fence, collection, utc_now, listing, filter);
    let i = choose|i: int| 0 <= i < (wal + fence).len() && (wal + fence)[i] == id;
    let kind = if i < wal.len() {
        assert(wal[i] == id);
        WalObjectKind::Wal
    } else {
        assert(fence[i - wal.len()] == id);
        WalObjectKind::Fence
    };
    let policy = crate::model::policy_for(collection, kind)->0;
    let retained = filter(
        kind,
        eligible_objects(
            of_kind(listing, kind),
            utc_now,
            policy.min_age.as_nanos(),
            collection.referenced_ranges,
        ),
    );
    assert(ids_of(retained).contains(id));
    let j = choose|j: int| 0 <= j < ids_of(retained).len() && ids_of(retained)[j] == id;
    assert(retained.contains(retained[j]));
}

/// With a filter that lets nothing through, nothing is deleted. With one that lets everything
/// through, just that is deleted which is deleted without a filter.
pub proof fn law_filters_that_allow_nothing_or_everything(
    collection: CollectionView,
    utc_now: Timestamp,
    listing: Seq<WalObject>,
    filter: FilterOutcome,
)
    requires
        collection.gc_filter,
    ensures
        (forall|kind: WalObjectKind, shown: Seq<WalObject>|
            (#[trigger] filter(kind, shown)).len() == 0) ==> deletions(
            after_listing(collection, utc_now, listing),
            filter,
        ) == Seq::<WalFileId>::empty(),
        (forall|kind: WalObjectKind, shown: Seq<WalObject>| #[trigger] filter(kind, shown) == shown)
            ==> deletions(after_listing(collection, utc_now, listing), filter) == deletions(
            after_listing(CollectionView { gc_filter: false, ..collection }, utc_now, listing),
            filter,
        ),
{
    law_deletions(collection, utc_now, listing, filter);
    law_deletions(CollectionView { gc_filter: false, ..collection }, utc_now, listing, filter);
    let deleted = deletions(after_listing(collection, utc_now, listing), filter);
    if forall|kind: WalObjectKind, shown: Seq<WalObject>|
        (#[trigger] filter(kind, shown)).len() == 0 {
        assert(deleted =~= Seq::<WalFileId>::empty());
    }
}

} // verus!
