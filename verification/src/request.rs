//! What a collection is asked to do, and the objects that it looks at.
use std::ops::Bound;
use vstd::prelude::*;

use crate::time::{Duration, Timestamp};

verus! {

/// Declares `std::ops::Bound` with its public variants; nothing is claimed of it.
#[verifier::external_type_specification]
#[verifier::reject_recursive_types(T)]
pub struct ExBound<T>(std::ops::Bound<T>);

/// The number of a file in the WAL directory.
#[derive(Clone, Copy, Debug, PartialEq, Eq, Structural)]
pub struct WalFileId(pub u64);

impl WalFileId {
    /// The number itself.
    pub fn value(&self) -> (result: u64)
        ensures
            result == self.0,
    {
        self.0
    }
}

impl From<u64> for WalFileId {
    fn from(value: u64) -> (result: WalFileId) {
        WalFileId(value)
    }
}

impl vstd::std_specs::convert::FromSpecImpl<u64> for WalFileId {
    open spec fn obeys_from_spec() -> bool {
        true
    }

    open spec fn from_spec(value: u64) -> WalFileId {
        WalFileId(value)
    }
}

/// What the object store tells of an object.
#[derive(Clone, Copy, Debug)]
pub struct ObjectMetadata {
    /// The size in bytes.
    pub size: u64,
    /// When the object was last written.
    pub last_modified: Timestamp,
}

/// An object together with the identifier that its name holds.
#[derive(Clone, Copy, Debug)]
pub struct IdentifiedObjectMetadata<T> {
    pub id: T,
    pub metadata: ObjectMetadata,
}

/// A range of WAL files that a reader still needs: where it starts and where it ends.
#[derive(Clone, Copy, Debug)]
pub struct WalFileRange(pub Bound<u64>, pub Bound<u64>);

impl WalFileRange {
    /// The range holds the WAL file `id`.
    pub open spec fn contains(self, id: u64) -> bool {
        &&& match self.0 {
            Bound::Included(start) => start <= id,
            Bound::Excluded(start) => start < id,
            Bound::Unbounded => true,
        }
        &&& match self.1 {
            Bound::Included(end) => id <= end,
            Bound::Excluded(end) => id < end,
            Bound::Unbounded => true,
        }
    }
}

/// How one class of objects is collected.
#[derive(Clone, Copy, Debug)]
pub struct WalGcPolicy {
    /// Objects that are not older than this are kept.
    pub min_age: Duration,
    /// Objects are only reported, not deleted.
    pub dry_run: bool,
}

/// A request to collect the WAL directory.
#[derive(Debug)]
pub struct WalGcRequest {
    /// The ranges of WAL files that must be kept.
    pub referenced_ranges: Vec<WalFileRange>,
    /// How WAL SSTs are collected, if at all.
    pub wal: Option<WalGcPolicy>,
    /// How WAL fences are collected, if at all.
    pub fence: Option<WalGcPolicy>,
}

impl WalGcRequest {
    pub fn new(
        referenced_ranges: Vec<WalFileRange>,
        wal: Option<WalGcPolicy>,
        fence: Option<WalGcPolicy>,
    ) -> (result: WalGcRequest)
        ensures
            result.referenced_ranges == referenced_ranges,
            result.wal == wal,
            result.fence == fence,
    {
        WalGcRequest { referenced_ranges, wal, fence }
    }
}

} // verus!
