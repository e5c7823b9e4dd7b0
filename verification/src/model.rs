//! What a collection decides, over sequences of objects.
use vstd::prelude::*;

use crate::request::{IdentifiedObjectMetadata, WalFileId, WalFileRange, WalGcPolicy};
use crate::time::{elapsed_nanos, Timestamp};

verus! {

/// An object in the WAL directory.
pub type WalObject = IdentifiedObjectMetadata<WalFileId>;

/// The two classes of object stored in a WAL directory.
///
/// WAL SSTs and zero-byte WAL fences share the same directory and the same identifiers, but they
/// have separate retention policies.
#[derive(Clone, Copy, Debug, PartialEq, Eq, Structural)]
pub enum WalObjectKind {
    /// Non-empty WAL SSTs, collected under the request's `wal` policy.
    Wal,
    /// Zero-byte WAL fences, collected under the request's `fence` policy.
    Fence,
}

/// The class that an object belongs to.
pub open spec fn kind_of(object: WalObject) -> WalObjectKind {
    if object.metadata.size == 0 {
        WalObjectKind::Fence
    } else {
        WalObjectKind::Wal
    }
}

/// One of the ranges holds the WAL file `id`.
pub open spec fn is_referenced(ranges: Seq<WalFileRange>, id: u64) -> bool {
    exists|i: int| 0 <= i < ranges.len() && (#[trigger] ranges[i]).contains(id)
}

/// The object is more than `min_age` nanoseconds old and no range needs it.
pub open spec fn is_eligible(
    object: WalObject,
    now: Timestamp,
    min_age: int,
    ranges: Seq<WalFileRange>,
) -> bool {
    &&& elapsed_nanos(now, object.metadata.last_modified) > min_age
    &&& !is_referenced(ranges, object.id.0)
}

/// The objects of one class, in the order in which they were listed.
pub open spec fn of_kind(objects: Seq<WalObject>, kind: WalObjectKind) -> Seq<WalObject> {
    objects.filter(|object: WalObject| kind_of(object) == kind)
}

/// The objects that may be deleted, in the order in which they were listed.
pub open spec fn eligible_objects(
    objects: Seq<WalObject>,
    now: Timestamp,
    min_age: int,
    ranges: Seq<WalFileRange>,
) -> Seq<WalObject> {
    objects.filter(|object: WalObject| is_eligible(object, now, min_age, ranges))
}

/// The identifiers of the objects.
pub open spec fn ids_of(objects: Seq<WalObject>) -> Seq<WalFileId> {
    objects.map_values(|object: WalObject| object.id)
}

/// What is done with the objects that a pass has settled on.
#[verifier::ext_equal]
pub ghost enum DisposalView {
    /// The objects are reported and kept.
    DryRun { ids: Seq<WalFileId>, announce: bool, explain_fences: bool },
    /// The objects are deleted.
    Delete { ids: Seq<WalFileId> },
}

/// What is done with the objects `ids` of one class: in a dry run they are only reported, under
/// a headline if there are any, and with a word on how to enable deletion if they are fences.
pub open spec fn disposal(kind: WalObjectKind, ids: Seq<WalFileId>, dry_run: bool) -> DisposalView {
    if dry_run {
        DisposalView::DryRun {
            ids,
            announce: ids.len() > 0,
            explain_fences: ids.len() > 0 && kind == WalObjectKind::Fence,
        }
    } else {
        DisposalView::Delete { ids }
    }
}

/// A request, and whether candidates for deletion are shown to a filter.
#[verifier::ext_equal]
pub ghost struct CollectionView {
    pub gc_filter: bool,
    pub referenced_ranges: Seq<WalFileRange>,
    pub wal: Option<WalGcPolicy>,
    pub fence: Option<WalGcPolicy>,
}

/// What is left of a collection after the pass at hand.
#[verifier::ext_equal]
pub ghost struct RemainingView {
    pub gc_filter: bool,
    pub utc_now: Timestamp,
    pub referenced_ranges: Seq<WalFileRange>,
    /// The fences, if they are still to be collected, and how.
    pub fence: Option<(Seq<WalObject>, WalGcPolicy)>,
}

/// What comes next in a collection.
#[verifier::ext_equal]
pub ghost enum StepView {
    /// Everything is done.
    Finished,
    /// The policy at hand has a minimum age that no object's age can be compared with.
    InvalidDuration,
    /// The filter is to say which of the candidates may be deleted.
    Filter {
        candidates: Seq<WalObject>,
        kind: WalObjectKind,
        dry_run: bool,
        remaining: RemainingView,
    },
    /// The objects of one class are to be reported or deleted.
    Dispose { kind: WalObjectKind, disposal: DisposalView, remaining: RemainingView },
}

/// What follows once the filter, if there is one, has let `retained` through.
pub open spec fn after_filter(
    retained: Seq<WalObject>,
    kind: WalObjectKind,
    dry_run: bool,
    remaining: RemainingView,
) -> StepView {
    StepView::Dispose { kind, disposal: disposal(kind, ids_of(retained), dry_run), remaining }
}

/// How the pass over the objects of one class begins.
pub open spec fn begin_pass(
    kind: WalObjectKind,
    objects: Seq<WalObject>,
    policy: WalGcPolicy,
    remaining: RemainingView,
) -> StepView {
    let candidates = eligible_objects(
        objects,
        remaining.utc_now,
        policy.min_age.as_nanos(),
        remaining.referenced_ranges,
    );
    if !policy.min_age.is_representable() {
        StepView::InvalidDuration
    } else if remaining.gc_filter {
        StepView::Filter { candidates, kind, dry_run: policy.dry_run, remaining }
    } else {
        after_filter(candidates, kind, policy.dry_run, remaining)
    }
}

/// What follows once a pass is done.
pub open spec fn after_disposal(remaining: RemainingView) -> StepView {
    match remaining.fence {
        Some((fences, policy)) => begin_pass(
            WalObjectKind::Fence,
            fences,
            policy,
            RemainingView { fence: None, ..remaining },
        ),
        None => StepView::Finished,
    }
}

/// What follows once the WAL directory is listed: the pass over the WAL SSTs, if the request has
/// a policy for them, otherwise the pass over the fences.
pub open spec fn after_listing(
    collection: CollectionView,
    utc_now: Timestamp,
    listing: Seq<WalObject>,
) -> StepView {
    let remaining = RemainingView {
        gc_filter: collection.gc_filter,
        utc_now,
        referenced_ranges: collection.referenced_ranges,
        fence: match collection.fence {
            Some(policy) => Some((of_kind(listing, WalObjectKind::Fence), policy)),
            None => None,
        },
    };
    match collection.wal {
        Some(policy) => begin_pass(
            WalObjectKind::Wal,
            of_kind(listing, WalObjectKind::Wal),
            policy,
            remaining,
        ),
        None => after_disposal(remaining),
    }
}

/// The outcomes of the filter: which of the candidates of a class it lets through.
pub type FilterOutcome = spec_fn(WalObjectKind, Seq<WalObject>) -> Seq<WalObject>;

/// The filter lets through nothing but what it was shown.
pub open spec fn only_retains(filter: FilterOutcome) -> bool {
    forall|kind: WalObjectKind, candidates: Seq<WalObject>, object: WalObject| #[trigger]
        filter(kind, candidates).contains(object) ==> candidates.contains(object)
}

/// The objects that are handed to the store for deletion.
pub open spec fn ids_deleted(disposal: DisposalView) -> Seq<WalFileId> {
    match disposal {
        DisposalView::DryRun { .. } => Seq::empty(),
        DisposalView::Delete { ids } => ids,
    }
}

/// How much of a collection is left.
pub open spec fn work_left(step: StepView) -> nat {
    match step {
        StepView::Finished => 0,
        StepView::InvalidDuration => 0,
        StepView::Filter { remaining, .. } => if remaining.fence is Some {
            4
        } else {
            2
        },
        StepView::Dispose { remaining, .. } => if remaining.fence is Some {
            3
        } else {
            1
        },
    }
}

/// All that a collection hands to the store for deletion from `step` on until it ends.
pub open spec fn deletions(step: StepView, filter: FilterOutcome) -> Seq<WalFileId>
    decreases work_left(step),
{
    match step {
        StepView::Finished => Seq::empty(),
        StepView::InvalidDuration => Seq::empty(),
        StepView::Filter { candidates, kind, dry_run, remaining } => deletions(
            after_filter(filter(kind, candidates), kind, dry_run, remaining),
            filter,
        ),
        StepView::Dispose { disposal, remaining, .. } => ids_deleted(disposal) + deletions(
            after_disposal(remaining),
            filter,
        ),
    }
}

/// All that a collection deletes once it has the time and the listing.
pub open spec fn all_deletions(
    collection: CollectionView,
    utc_now: Timestamp,
    listing: Seq<WalObject>,
    filter: FilterOutcome,
) -> Seq<WalFileId> {
    deletions(after_listing(collection, utc_now, listing), filter)
}

/// The policy under which the objects of a class are collected.
pub open spec fn policy_for(collection: CollectionView, kind: WalObjectKind) -> Option<
    WalGcPolicy,
> {
    match kind {
        WalObjectKind::Wal => collection.wal,
        WalObjectKind::Fence => collection.fence,
    }
}

/// The object's class has a policy that deletes, and by that policy the object may go.
pub open spec fn may_be_deleted(
    collection: CollectionView,
    utc_now: Timestamp,
    object: WalObject,
) -> bool {
    policy_for(collection, kind_of(object)) matches Some(policy) && {
        &&& !policy.dry_run
        &&& policy.min_age.is_representable()
        &&& is_eligible(object, utc_now, policy.min_age.as_nanos(), collection.referenced_ranges)
    }
}

/// The policy for WAL SSTs, if there is one, has a minimum age that ages can be compared with.
/// Where it has not, the collection ends before anything is deleted.
pub open spec fn reaches_fences(collection: CollectionView) -> bool {
    collection.wal matches Some(policy) ==> policy.min_age.is_representable()
}

/// What the pass over the objects of one class deletes.
pub open spec fn pass_deletions(
    kind: WalObjectKind,
    collection: CollectionView,
    utc_now: Timestamp,
    listing: Seq<WalObject>,
    filter: FilterOutcome,
) -> Seq<WalFileId> {
    match policy_for(collection, kind) {
        Some(policy) => {
            let candidates = eligible_objects(
                of_kind(listing, kind),
                utc_now,
                policy.min_age.as_nanos(),
                collection.referenced_ranges,
            );
            if policy.dry_run || !policy.min_age.is_representable() {
                Seq::empty()
            } else if collection.gc_filter {
                ids_of(filter(kind, candidates))
            } else {
                ids_of(candidates)
            }
        },
        None => Seq::empty(),
    }
}

/// No two objects have the same identifier.
pub open spec fn ids_are_unique(objects: Seq<WalObject>) -> bool {
    forall|i: int, j: int|
        0 <= i < objects.len() && 0 <= j < objects.len() && i != j ==> (#[trigger] objects[i]).id
            != (#[trigger] objects[j]).id
}

/// The objects that are left once those named are deleted.
pub open spec fn survivors(objects: Seq<WalObject>, deleted: Seq<WalFileId>) -> Seq<WalObject> {
    objects.filter(|object: WalObject| !deleted.contains(object.id))
}

} // verus!
