//! The garbage collector: which objects go, and what is done with them.
use std::ops::Bound;
use vstd::prelude::*;

use crate::collection::{AwaitingClock, Disposal, Remaining, Step};
use crate::laws::lemma_filter_membership;
use crate::model::{
    begin_pass, disposal, eligible_objects, is_eligible, kind_of, of_kind, CollectionView,
    WalObject, WalObjectKind,
};
use crate::request::{WalFileId, WalFileRange, WalGcPolicy, WalGcRequest};
use crate::time::{elapsed_nanos, InvalidDuration, TimeDelta, Timestamp};

verus! {

impl WalObjectKind {
    /// What objects of this class are called in messages.
    pub fn resource(self) -> (result: &'static str)
        ensures
            result@ == match self {
                WalObjectKind::Wal => "WAL"@,
                WalObjectKind::Fence => "WAL fence"@,
            },
    {
        match self {
            WalObjectKind::Wal => "WAL",
            WalObjectKind::Fence => "WAL fence",
        }
    }
}

/// A counter of deleted objects.
#[derive(Clone, Copy, Debug, PartialEq, Eq, Structural)]
pub enum GcCounter {
    /// Deleted WAL SSTs.
    GcWalCount,
    /// Deleted WAL fences.
    GcWalFenceCount,
}

/// The garbage collector of a WAL directory.
#[derive(Clone, Copy)]
pub struct SlateDbWalGc {
    /// Candidates for deletion are shown to a filter before anything is deleted.
    pub gc_filter: bool,
}

/// The sequence of the first `i + 1` elements, filtered, ends in the element at `i` if that
/// element passes the filter, and is otherwise the first `i` elements filtered.
proof fn lemma_filter_next<A>(s: Seq<A>, i: int, pred: spec_fn(A) -> bool)
    requires
        0 <= i < s.len(),
    ensures
        s.take(i + 1).filter(pred) == if pred(s[i]) {
            s.take(i).filter(pred).push(s[i])
        } else {
            s.take(i).filter(pred)
        },
{
    reveal(Seq::filter);
    assert(s.take(i + 1).drop_last() =~= s.take(i));
}

impl SlateDbWalGc {
    pub fn new(gc_filter: bool) -> (result: SlateDbWalGc)
        ensures
            result.gc_filter == gc_filter,
    {
        SlateDbWalGc { gc_filter }
    }

    /// Whether the object is older than `min_age` and no referenced range needs it.
    pub fn is_wal_sst_eligible_for_deletion(
        utc_now: &Timestamp,
        wal_sst: &WalObject,
        min_age: &TimeDelta,
        referenced_ranges: &[WalFileRange],
    ) -> (result: bool)
        ensures
            result == is_eligible(
                *wal_sst,
                *utc_now,
                min_age.as_nanos(),
                referenced_ranges@,
            ),
            result <==> {
                &&& elapsed_nanos(*utc_now, wal_sst.metadata.last_modified) > min_age.as_nanos()
                &&& forall|i: int|
                    0 <= i < referenced_ranges@.len() ==> !(
                    #[trigger] referenced_ranges@[i]).contains(wal_sst.id.0)
            },
    {
        let age = utc_now.signed_duration_since(&wal_sst.metadata.last_modified);
        if age.at_most(min_age) {
            return false;
        }
        let wal_sst_id: u64 = wal_sst.id.value();
        let mut i: usize = 0;
        while i < referenced_ranges.len()
            invariant
                i <= referenced_ranges@.len(),
                wal_sst_id == wal_sst.id.0,
                forall|j: int|
                    0 <= j < i ==> !(#[trigger] referenced_ranges@[j]).contains(wal_sst_id),
            decreases referenced_ranges@.len() - i,
        {
            if Self::range_contains(&referenced_ranges[i], wal_sst_id) {
                return false;
            }
            i += 1;
        }
        true
    }

    /// Whether the range holds the WAL file `wal_sst_id`.
    pub fn range_contains(range: &WalFileRange, wal_sst_id: u64) -> (result: bool)
        ensures
            result == range.contains(wal_sst_id),
            result <==> {
                &&& range.0 matches Bound::Included(start) ==> wal_sst_id >= start
                &&& range.0 matches Bound::Excluded(start) ==> wal_sst_id > start
                &&& range.1 matches Bound::Included(end) ==> wal_sst_id <= end
                &&& range.1 matches Bound::Excluded(end) ==> wal_sst_id < end
            },
    {
        let after_start = match &range.0 {
            Bound::Included(start) => wal_sst_id >= *start,
            Bound::Excluded(start) => wal_sst_id > *start,
            Bound::Unbounded => true,
        };
        let before_end = match &range.1 {
            Bound::Included(end) => wal_sst_id <= *end,
            Bound::Excluded(end) => wal_sst_id < *end,
            Bound::Unbounded => true,
        };
        after_start && before_end
    }

    /// Parts a listing into the fences, which are the zero-byte objects, and the WAL SSTs.
    pub fn partition_by_kind(listing: Vec<WalObject>) -> (result: (Vec<WalObject>, Vec<WalObject>))
        ensures
            result.0@ == of_kind(listing@, WalObjectKind::Fence),
            result.1@ == of_kind(listing@, WalObjectKind::Wal),
            forall|object: WalObject| #[trigger]
                result.0@.contains(object) <==> listing@.contains(object) && object.metadata.size
                    == 0,
            forall|object: WalObject| #[trigger]
                result.1@.contains(object) <==> listing@.contains(object) && object.metadata.size
                    > 0,
            result.0@.len() + result.1@.len() == listing@.len(),
    {
        let mut fences: Vec<WalObject> = Vec::new();
        let mut wals: Vec<WalObject> = Vec::new();
        let ghost is_fence = |object: WalObject|
            kind_of(object) == WalObjectKind::Fence;
        let ghost is_wal = |object: WalObject| kind_of(object) == WalObjectKind::Wal;
        let mut i: usize = 0;
        proof {
            reveal(Seq::filter);
        }
        while i < listing.len()
            invariant
                i <= listing@.len(),
                forall|object: WalObject| #[trigger]
                    is_fence(object) <==> kind_of(object) == WalObjectKind::Fence,
                forall|object: WalObject| #[trigger]
                    is_wal(object) <==> kind_of(object) == WalObjectKind::Wal,
                fences@.len() + wals@.len() == i,
                fences@ == listing@.take(i as int).filter(is_fence),
                wals@ == listing@.take(i as int).filter(is_wal),
            decreases listing@.len() - i,
        {
            let object = listing[i];
            proof {
                lemma_filter_next(listing@, i as int, is_fence);
                lemma_filter_next(listing@, i as int, is_wal);
            }
            if object.metadata.size == 0 {
                fences.push(object);
            } else {
                wals.push(object);
            }
            i += 1;
        }
        assert(listing@.take(i as int) =~= listing@);
        proof {
            assert forall|object: WalObject| #[trigger]
                fences@.contains(object) <==> listing@.contains(object) && object.metadata.size
                    == 0 by {
                lemma_filter_membership(listing@, is_fence, object);
            }
            assert forall|object: WalObject| #[trigger]
                wals@.contains(object) <==> listing@.contains(object) && object.metadata.size
                    > 0 by {
                lemma_filter_membership(listing@, is_wal, object);
            }
        }
        (fences, wals)
    }

    /// Picks the objects that are older than `min_age` and that no referenced range needs.
    pub fn select_eligible(
        wal_ssts: Vec<WalObject>,
        utc_now: &Timestamp,
        min_age: &TimeDelta,
        referenced_ranges: &[WalFileRange],
    ) -> (result: Vec<WalObject>)
        ensures
            result@ == eligible_objects(
                wal_ssts@,
                *utc_now,
                min_age.as_nanos(),
                referenced_ranges@,
            ),
    {
        let mut selected: Vec<WalObject> = Vec::new();
        let ghost eligible = |object: WalObject|
            is_eligible(object, *utc_now, min_age.as_nanos(), referenced_ranges@);
        let mut i: usize = 0;
        proof {
            reveal(Seq::filter);
        }
        while i < wal_ssts.len()
            invariant
                i <= wal_ssts@.len(),
                forall|object: WalObject| #[trigger]
                    eligible(object) <==> is_eligible(
                        object,
                        *utc_now,
                        min_age.as_nanos(),
                        referenced_ranges@,
                    ),
                selected@ == wal_ssts@.take(i as int).filter(eligible),
            decreases wal_ssts@.len() - i,
        {
            let wal_sst = wal_ssts[i];
            proof {
                lemma_filter_next(wal_ssts@, i as int, eligible);
            }
            if Self::is_wal_sst_eligible_for_deletion(
                utc_now,
                &wal_sst,
                min_age,
                referenced_ranges,
            ) {
                selected.push(wal_sst);
            }
            i += 1;
        }
        assert(wal_ssts@.take(i as int) =~= wal_ssts@);
        selected
    }

    /// Applies `policy` to `wal_ssts`, which are the objects of the given `kind`: shows those that
    /// may be deleted to the filter, or where there is none disposes of them at once.
    pub fn collect_kind(
        kind: WalObjectKind,
        wal_ssts: Vec<WalObject>,
        policy: WalGcPolicy,
        remaining: Remaining,
    ) -> (result: Step)
        requires
            policy.min_age.is_representable(),
        ensures
            result@ == begin_pass(kind, wal_ssts@, policy, remaining@),
    {
        let min_age = TimeDelta::from_std(policy.min_age).expect("invalid duration");
        let candidates = Self::select_eligible(
            wal_ssts,
            &remaining.utc_now,
            &min_age,
            remaining.referenced_ranges.as_slice(),
        );
        Step::for_candidates(kind, candidates, policy.dry_run, remaining)
    }

    /// Applies `policy` as `collect_kind` does, unless its minimum age is too long to be compared
    /// with: then no object is looked at, and the collection ends there.
    pub fn try_collect_kind(
        kind: WalObjectKind,
        wal_ssts: Vec<WalObject>,
        policy: WalGcPolicy,
        remaining: Remaining,
    ) -> (result: Step)
        ensures
            result@ == begin_pass(kind, wal_ssts@, policy, remaining@),
            result is InvalidDuration <==> !policy.min_age.is_representable(),
    {
        match TimeDelta::from_std(policy.min_age) {
            Ok(_) => Self::collect_kind(kind, wal_ssts, policy, remaining),
            Err(InvalidDuration) => Step::InvalidDuration,
        }
    }

    /// Says what is done with the objects `sst_ids` of the given `kind`.
    ///
    /// In a dry run nothing is deleted.
    pub fn maybe_delete_wal_ssts(
        kind: WalObjectKind,
        sst_ids: Vec<WalFileId>,
        dry_run: bool,
    ) -> (result: Disposal)
        ensures
            result@ == disposal(kind, sst_ids@, dry_run),
            match result {
                Disposal::DryRun { ids, announce, explain_fences } => {
                    &&& dry_run
                    &&& ids@ == sst_ids@
                    &&& announce <==> sst_ids@.len() > 0
                    &&& explain_fences <==> sst_ids@.len() > 0 && kind == WalObjectKind::Fence
                },
                Disposal::Delete { ids } => !dry_run && ids@ == sst_ids@,
            },
    {
        if dry_run {
            let announce = sst_ids.len() > 0;
            let explain_fences = announce && matches!(kind, WalObjectKind::Fence);
            Disposal::DryRun { ids: sst_ids, announce, explain_fences }
        } else {
            Disposal::Delete { ids: sst_ids }
        }
    }

    /// The counter that goes up after the attempt to delete an object of the given `kind`.
    ///
    /// An object that could not be deleted is not counted.
    pub fn counter_after_delete(kind: WalObjectKind, deleted: bool) -> (result: Option<GcCounter>)
        ensures
            result is Some <==> deleted,
            deleted && kind == WalObjectKind::Wal ==> result == Some(GcCounter::GcWalCount),
            deleted && kind == WalObjectKind::Fence ==> result == Some(GcCounter::GcWalFenceCount),
    {
        if !deleted {
            return None;
        }
        match kind {
            WalObjectKind::Wal => Some(GcCounter::GcWalCount),
            WalObjectKind::Fence => Some(GcCounter::GcWalFenceCount),
        }
    }

    /// Begins a collection.
    ///
    /// A request without a policy asks for nothing: there is no collection to go on with, and
    /// neither the clock nor the store is looked at.
    pub fn collect(&self, request: WalGcRequest) -> (result: Option<AwaitingClock>)
        ensures
            result is None <==> request.wal is None && request.fence is None,
            result matches Some(awaiting) ==> awaiting@ == (CollectionView {
                gc_filter: self.gc_filter,
                referenced_ranges: request.referenced_ranges@,
                wal: request.wal,
                fence: request.fence,
            }),
    {
        if request.wal.is_none() && request.fence.is_none() {
            return None;
        }
        Some(AwaitingClock::new(self.gc_filter, request))
    }
}

} // verus!
