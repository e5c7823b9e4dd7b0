//! A collection under way.
//!
//! A collection alternates decisions, which are taken here, with work on the outside: reading
//! the clock, listing the WAL directory, asking the filter, deleting objects. Each type that is
//! called `Awaiting` stands for a collection that waits for one such piece of work, and has one
//! method, which takes the outcome of that work and gives what comes next.
use vstd::prelude::*;

use crate::gc::SlateDbWalGc;
use crate::model::{
    after_disposal, after_filter, after_listing, ids_of, CollectionView, DisposalView,
    RemainingView, StepView, WalObject, WalObjectKind,
};
use crate::request::{WalFileId, WalFileRange, WalGcPolicy, WalGcRequest};
use crate::time::Timestamp;

verus! {

/// What is done with the objects that a pass has settled on.
#[derive(Debug)]
pub enum Disposal {
    /// The objects are kept, and reported: under a headline if `announce` is set, and with a word
    /// on how to enable the deletion of fences if `explain_fences` is set.
    DryRun { ids: Vec<WalFileId>, announce: bool, explain_fences: bool },
    /// The objects are deleted.
    Delete { ids: Vec<WalFileId> },
}

impl View for Disposal {
    type V = DisposalView;

    open spec fn view(&self) -> DisposalView {
        match self {
            Disposal::DryRun { ids, announce, explain_fences } => {
                DisposalView::DryRun {
                    ids: ids@,
                    announce: *announce,
                    explain_fences: *explain_fences,
                }
            },
            Disposal::Delete { ids } => DisposalView::Delete { ids: ids@ },
        }
    }
}

/// What comes next in a collection.
#[derive(Debug)]
pub enum Step {
    /// The collection is done.
    Finished,
    /// The policy at hand has a minimum age that no object's age can be compared with.
    InvalidDuration,
    /// The filter is to say which of the candidates may be deleted.
    Filter { candidates: Vec<WalObject>, on_verdict: AwaitingFilter },
    /// The objects of one class are to be reported or deleted.
    Dispose { kind: WalObjectKind, disposal: Disposal, on_disposed: AwaitingDisposal },
}

impl View for Step {
    type V = StepView;

    open spec fn view(&self) -> StepView {
        match self {
            Step::Finished => StepView::Finished,
            Step::InvalidDuration => StepView::InvalidDuration,
            Step::Filter { candidates, on_verdict } => StepView::Filter {
                candidates: candidates@,
                kind: on_verdict.kind(),
                dry_run: on_verdict.dry_run(),
                remaining: on_verdict.remaining(),
            },
            Step::Dispose { kind, disposal, on_disposed } => StepView::Dispose {
                kind: *kind,
                disposal: disposal@,
                remaining: on_disposed@,
            },
        }
    }
}

impl Step {
    /// What a pass does with the objects that may be deleted.
    pub(crate) fn for_candidates(
        kind: WalObjectKind,
        candidates: Vec<WalObject>,
        dry_run: bool,
        remaining: Remaining,
    ) -> (result: Step)
        ensures
            remaining@.gc_filter ==> result@ == (StepView::Filter {
                candidates: candidates@,
                kind,
                dry_run,
                remaining: remaining@,
            }),
            !remaining@.gc_filter ==> result@ == after_filter(
                candidates@,
                kind,
                dry_run,
                remaining@,
            ),
    {
        let gc_filter = remaining.gc_filter;
        let on_verdict = AwaitingFilter { kind, dry_run, remaining };
        if gc_filter {
            Step::Filter { candidates, on_verdict }
        } else {
            on_verdict.retained(candidates)
        }
    }
}

/// What is left of a collection after the pass at hand.
#[derive(Debug)]
pub struct Remaining {
    /// Candidates for deletion are shown to a filter.
    pub gc_filter: bool,
    /// The time at which the collection began.
    pub utc_now: Timestamp,
    /// The ranges of WAL files that must be kept.
    pub referenced_ranges: Vec<WalFileRange>,
    /// The fences, if they are still to be collected, and how.
    pub fence: Option<(Vec<WalObject>, WalGcPolicy)>,
}

impl View for Remaining {
    type V = RemainingView;

    open spec fn view(&self) -> RemainingView {
        RemainingView {
            gc_filter: self.gc_filter,
            utc_now: self.utc_now,
            referenced_ranges: self.referenced_ranges@,
            fence: match self.fence {
                Some((fences, policy)) => Some((fences@, policy)),
                None => None,
            },
        }
    }
}

impl Remaining {
    /// Goes on with the fences if they are still to be collected.
    fn next_pass(self) -> (result: Step)
        ensures
            result@ == after_disposal(self@),
    {
        match self.fence {
            Some((fences, policy)) => {
                let remaining = Remaining {
                    gc_filter: self.gc_filter,
                    utc_now: self.utc_now,
                    referenced_ranges: self.referenced_ranges,
                    fence: None,
                };
                SlateDbWalGc::try_collect_kind(WalObjectKind::Fence, fences, policy, remaining)
            },
            None => Step::Finished,
        }
    }
}

/// A collection that waits for the current time.
#[derive(Debug)]
pub struct AwaitingClock {
    gc_filter: bool,
    request: WalGcRequest,
}

impl View for AwaitingClock {
    type V = CollectionView;

    closed spec fn view(&self) -> CollectionView {
        CollectionView {
            gc_filter: self.gc_filter,
            referenced_ranges: self.request.referenced_ranges@,
            wal: self.request.wal,
            fence: self.request.fence,
        }
    }
}

impl AwaitingClock {
    pub(crate) fn new(gc_filter: bool, request: WalGcRequest) -> (result: AwaitingClock)
        ensures
            result@ == (CollectionView {
                gc_filter,
                referenced_ranges: request.referenced_ranges@,
                wal: request.wal,
                fence: request.fence,
            }),
    {
        AwaitingClock { gc_filter, request }
    }

    /// Takes the current time.
    pub fn clock_read(self, utc_now: Timestamp) -> (result: AwaitingListing)
        ensures
            result.collection() == self@,
            result.utc_now() == utc_now,
    {
        AwaitingListing { collection: self, utc_now }
    }
}

/// A collection that waits for the objects in the WAL directory.
#[derive(Debug)]
pub struct AwaitingListing {
    collection: AwaitingClock,
    utc_now: Timestamp,
}

impl AwaitingListing {
    /// What the collection was asked to do.
    pub closed spec fn collection(self) -> CollectionView {
        self.collection@
    }

    /// The time at which the collection began.
    pub closed spec fn utc_now(self) -> Timestamp {
        self.utc_now
    }

    /// Takes the listing, which serves both policies.
    ///
    /// Where the listing failed, so does the collection, with the same error.
    pub fn listed<E>(self, listing: Result<Vec<WalObject>, E>) -> (result: Result<Step, E>)
        ensures
            listing matches Err(error) ==> result == Err::<Step, E>(error),
            listing matches Ok(objects) ==> {
                &&& result matches Ok(step)
                &&& step@ == after_listing(
                    self.collection(),
                    self.utc_now(),
                    objects@,
                )
            },
    {
        let objects = match listing {
            Ok(objects) => objects,
            Err(error) => {
                return Err(error);
            },
        };
        let (fences, wals) = SlateDbWalGc::partition_by_kind(objects);
        let request = self.collection.request;
        let remaining = Remaining {
            gc_filter: self.collection.gc_filter,
            utc_now: self.utc_now,
            referenced_ranges: request.referenced_ranges,
            fence: match request.fence {
                Some(policy) => Some((fences, policy)),
                None => None,
            },
        };
        match request.wal {
            Some(policy) => Ok(
                SlateDbWalGc::try_collect_kind(WalObjectKind::Wal, wals, policy, remaining),
            ),
            None => Ok(remaining.next_pass()),
        }
    }
}

/// A collection that waits for the filter's verdict.
#[derive(Debug)]
pub struct AwaitingFilter {
    kind: WalObjectKind,
    dry_run: bool,
    remaining: Remaining,
}

impl AwaitingFilter {
    /// The class of the candidates.
    pub closed spec fn kind(self) -> WalObjectKind {
        self.kind
    }

    /// The candidates are only reported.
    pub closed spec fn dry_run(self) -> bool {
        self.dry_run
    }

    /// What is left after this pass.
    pub closed spec fn remaining(self) -> RemainingView {
        self.remaining@
    }

    /// Takes the candidates that may be deleted.
    pub fn retained(self, retained: Vec<WalObject>) -> (result: Step)
        ensures
            result@ == after_filter(
                retained@,
                self.kind(),
                self.dry_run(),
                self.remaining(),
            ),
            result matches Step::Dispose { kind, disposal, on_disposed } && {
                &&& kind == self.kind()
                &&& on_disposed@ == self.remaining()
                &&& match disposal {
                    Disposal::DryRun { ids, .. } => self.dry_run() && ids@.len() == retained@.len()
                        && forall|i: int|
                        0 <= i < ids@.len() ==> #[trigger] ids@[i] == retained@[i].id,
                    Disposal::Delete { ids } => !self.dry_run() && ids@.len() == retained@.len()
                        && forall|i: int|
                        0 <= i < ids@.len() ==> #[trigger] ids@[i] == retained@[i].id,
                }
            },
    {
        let mut ids: Vec<WalFileId> = Vec::new();
        let mut i: usize = 0;
        while i < retained.len()
            invariant
                i <= retained@.len(),
                ids@.len() == i,
                forall|j: int| 0 <= j < i ==> #[trigger] ids@[j] == retained@[j].id,
            decreases retained@.len() - i,
        {
            ids.push(retained[i].id);
            i += 1;
        }
        assert(ids@ =~= ids_of(retained@));
        Step::Dispose {
            kind: self.kind,
            disposal: SlateDbWalGc::maybe_delete_wal_ssts(self.kind, ids, self.dry_run),
            on_disposed: AwaitingDisposal { remaining: self.remaining },
        }
    }
}

/// A collection that waits for objects to be reported or deleted.
#[derive(Debug)]
pub struct AwaitingDisposal {
    remaining: Remaining,
}

impl View for AwaitingDisposal {
    type V = RemainingView;

    closed spec fn view(&self) -> RemainingView {
        self.remaining@
    }
}

impl AwaitingDisposal {
    /// Goes on after the objects are reported, or their deletion has been tried. An object that
    /// could not be deleted does not stop the collection.
    pub fn disposed(self) -> (result: Step)
        ensures
            result@ == after_disposal(self@),
    {
        self.remaining.next_pass()
    }
}

} // verus!
