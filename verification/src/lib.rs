//! Garbage collection of a write-ahead log (WAL) that is kept as files in an object store.
pub mod collection;
pub mod gc;
pub mod laws;
pub mod model;
pub mod promises;
pub mod request;
pub mod time;

pub use crate::collection::{
    AwaitingClock, AwaitingDisposal, AwaitingFilter, AwaitingListing, Disposal, Remaining, Step,
};
pub use crate::gc::{GcCounter, SlateDbWalGc};
pub use crate::model::{WalObject, WalObjectKind};
pub use crate::request::{
    IdentifiedObjectMetadata, ObjectMetadata, WalFileId, WalFileRange, WalGcPolicy, WalGcRequest,
};
pub use crate::time::{Duration, InvalidDuration, TimeDelta, Timestamp};
