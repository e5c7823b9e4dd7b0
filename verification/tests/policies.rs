//! Whole collections over a WAL directory that is held in memory.
use slatedb_wal_gc::{
    Disposal, Duration, GcCounter, ObjectMetadata, SlateDbWalGc, Step, Timestamp, WalFileId,
    WalFileRange, WalGcPolicy, WalGcRequest, WalObject, WalObjectKind,
};
use std::ops::Bound;

/// When the files of the store are written.
const WRITTEN_AT: i64 = 1_700_000_000;

fn at(secs: i64) -> Timestamp {
    Timestamp::new(secs, 0).unwrap()
}

struct Store {
    objects: Vec<WalObject>,
    /// Files whose deletion fails.
    stuck: Vec<u64>,
    wal_count: u64,
    wal_fence_count: u64,
    times_listed: u64,
}

impl Store {
    fn new() -> Store {
        Store {
            objects: Vec::new(),
            stuck: Vec::new(),
            wal_count: 0,
            wal_fence_count: 0,
            times_listed: 0,
        }
    }

    fn write(&mut self, wal_id: u64, size: u64) {
        self.objects.push(WalObject {
            id: wal_id.into(),
            metadata: ObjectMetadata {
                size,
                last_modified: at(WRITTEN_AT),
            },
        });
    }

    fn write_regular_wal(&mut self, wal_id: u64) {
        self.write(wal_id, 100);
    }

    fn write_fence_wal(&mut self, wal_id: u64) {
        self.write(wal_id, 0);
    }

    fn wal_ids(&self) -> Vec<u64> {
        self.objects.iter().map(|object| object.id.value()).collect()
    }

    fn list(&mut self) -> Result<Vec<WalObject>, String> {
        self.times_listed += 1;
        Ok(self.objects.clone())
    }

    fn delete(&mut self, id: WalFileId) -> bool {
        if self.stuck.contains(&id.value()) {
            return false;
        }
        self.objects.retain(|object| object.id != id);
        true
    }

    fn dispose(&mut self, kind: WalObjectKind, disposal: Disposal) {
        if let Disposal::Delete { ids } = disposal {
            for id in ids {
                let deleted = self.delete(id);
                match SlateDbWalGc::counter_after_delete(kind, deleted) {
                    Some(GcCounter::GcWalCount) => self.wal_count += 1,
                    Some(GcCounter::GcWalFenceCount) => self.wal_fence_count += 1,
                    None => assert!(!deleted),
                }
            }
        }
    }

    /// Runs a collection, letting through what `filter` allows. Gives false if it ends at a
    /// duration that is too long.
    fn run(
        &mut self,
        filter: Option<fn(&WalObject) -> bool>,
        now: Timestamp,
        request: WalGcRequest,
    ) -> bool {
        let gc = SlateDbWalGc::new(filter.is_some());
        let awaiting_clock = match gc.collect(request) {
            Some(awaiting_clock) => awaiting_clock,
            None => return true,
        };
        let listing = self.list();
        let mut step = awaiting_clock.clock_read(now).listed(listing).unwrap();
        loop {
            step = match step {
                Step::Finished => return true,
                Step::InvalidDuration => return false,
                Step::Filter {
                    candidates,
                    on_verdict,
                } => on_verdict.retained(candidates.into_iter().filter(filter.unwrap()).collect()),
                Step::Dispose {
                    kind,
                    disposal,
                    on_disposed,
                } => {
                    self.dispose(kind, disposal);
                    on_disposed.disposed()
                }
            };
        }
    }

    fn collect(&mut self, now: Timestamp, request: WalGcRequest) {
        assert!(self.run(None, now, request));
    }
}

fn policy(min_age: Duration) -> Option<WalGcPolicy> {
    Some(WalGcPolicy {
        min_age,
        dry_run: false,
    })
}

fn zero() -> Duration {
    Duration::from_secs(0)
}

fn wal_request(referenced_ranges: Vec<WalFileRange>, min_age: Duration) -> WalGcRequest {
    WalGcRequest::new(referenced_ranges, policy(min_age), None)
}

fn fence_request(referenced_ranges: Vec<WalFileRange>, min_age: Duration) -> WalGcRequest {
    WalGcRequest::new(referenced_ranges, None, policy(min_age))
}

/// A time at which every file is more than `min_age_secs` old.
fn older_than(min_age_secs: i64) -> Timestamp {
    at(WRITTEN_AT + min_age_secs + 1)
}

fn protect_outer_wals() -> Vec<WalFileRange> {
    vec![
        WalFileRange(Bound::Included(1), Bound::Excluded(2)),
        WalFileRange(Bound::Included(4), Bound::Unbounded),
    ]
}

#[test]
fn wal_policy_deletes_unreferenced_range_and_keeps_referenced_wals() {
    let mut store = Store::new();
    for wal_id in 1..=4 {
        store.write_regular_wal(wal_id);
    }
    store.collect(older_than(0), wal_request(protect_outer_wals(), zero()));
    assert_eq!(store.wal_ids(), vec![1, 4]);
}

#[test]
fn wal_policy_does_not_touch_fences() {
    let mut store = Store::new();
    store.write_regular_wal(1);
    store.write_fence_wal(2);
    store.collect(older_than(0), wal_request(vec![], zero()));
    assert_eq!(store.wal_ids(), vec![2]);
}

#[test]
fn wal_policy_respects_min_age() {
    let mut store = Store::new();
    store.write_regular_wal(1);
    let min_age = Duration::from_secs(60 * 60);

    store.collect(at(WRITTEN_AT + 30 * 60), wal_request(vec![], min_age));
    assert_eq!(store.wal_ids(), vec![1]);

    store.collect(at(WRITTEN_AT + 61 * 60), wal_request(vec![], min_age));
    assert!(store.wal_ids().is_empty());
}

#[test]
fn fence_policy_deletes_unreferenced_range_and_keeps_referenced_wals() {
    let mut store = Store::new();
    for wal_id in 1..=4 {
        store.write_fence_wal(wal_id);
    }
    store.collect(older_than(0), fence_request(protect_outer_wals(), zero()));
    assert_eq!(store.wal_ids(), vec![1, 4]);
}

#[test]
fn fence_policy_does_not_touch_regular_wals() {
    let mut store = Store::new();
    store.write_fence_wal(1);
    store.write_regular_wal(2);
    store.collect(older_than(0), fence_request(vec![], zero()));
    assert_eq!(store.wal_ids(), vec![2]);
}

#[test]
fn fence_policy_respects_min_age() {
    let mut store = Store::new();
    store.write_fence_wal(1);
    let min_age = Duration::from_secs(60 * 60);

    store.collect(at(WRITTEN_AT + 30 * 60), fence_request(vec![], min_age));
    assert_eq!(store.wal_ids(), vec![1]);

    store.collect(at(WRITTEN_AT + 61 * 60), fence_request(vec![], min_age));
    assert!(store.wal_ids().is_empty());
}

#[test]
fn applies_each_policy_to_its_own_objects() {
    let mut store = Store::new();
    store.write_regular_wal(1);
    store.write_fence_wal(2);
    store.write_regular_wal(3);
    store.write_fence_wal(4);

    // Fences are dry-run, so only the regular WAL outside the referenced range is deleted.
    let request = WalGcRequest::new(
        vec![WalFileRange(Bound::Included(3), Bound::Unbounded)],
        policy(zero()),
        Some(WalGcPolicy {
            min_age: zero(),
            dry_run: true,
        }),
    );
    store.collect(older_than(0), request);
    assert_eq!(store.wal_ids(), vec![2, 3, 4]);

    let request = WalGcRequest::new(
        vec![WalFileRange(Bound::Included(3), Bound::Unbounded)],
        policy(zero()),
        policy(zero()),
    );
    store.collect(older_than(0), request);
    assert_eq!(store.wal_ids(), vec![3, 4]);
}

#[test]
fn empty_request_deletes_nothing() {
    let mut store = Store::new();
    store.write_regular_wal(1);
    store.write_fence_wal(2);
    store.collect(older_than(0), WalGcRequest::new(vec![], None, None));
    assert_eq!(store.wal_ids(), vec![1, 2]);
    assert_eq!(store.times_listed, 0);
}

#[test]
fn one_listing_serves_both_policies() {
    let mut store = Store::new();
    store.write_regular_wal(1);
    store.write_fence_wal(2);
    let request = WalGcRequest::new(vec![], policy(zero()), policy(zero()));
    store.collect(older_than(0), request);
    assert!(store.wal_ids().is_empty());
    assert_eq!(store.times_listed, 1);
    assert_eq!((store.wal_count, store.wal_fence_count), (1, 1));
}

#[test]
fn an_object_of_exactly_the_minimum_age_is_kept() {
    let mut store = Store::new();
    store.write_regular_wal(1);
    let min_age = Duration::new(10, 5).unwrap();
    let exact = Timestamp::new(WRITTEN_AT + 10, 5).unwrap();
    store.collect(exact, wal_request(vec![], min_age));
    assert_eq!(store.wal_ids(), vec![1]);

    let later = Timestamp::new(WRITTEN_AT + 10, 6).unwrap();
    store.collect(later, wal_request(vec![], min_age));
    assert!(store.wal_ids().is_empty());
}

#[test]
fn an_object_from_the_future_is_kept() {
    let mut store = Store::new();
    store.write_fence_wal(1);
    store.collect(at(WRITTEN_AT - 1), fence_request(vec![], zero()));
    assert_eq!(store.wal_ids(), vec![1]);
}

#[test]
fn dry_run_deletes_nothing() {
    let mut store = Store::new();
    store.write_regular_wal(1);
    store.write_fence_wal(2);
    let dry = Some(WalGcPolicy {
        min_age: zero(),
        dry_run: true,
    });
    store.collect(older_than(0), WalGcRequest::new(vec![], dry, dry));
    assert_eq!(store.wal_ids(), vec![1, 2]);
    assert_eq!((store.wal_count, store.wal_fence_count), (0, 0));
}

#[test]
fn a_failed_deletion_is_not_counted_and_stops_nothing() {
    let mut store = Store::new();
    store.write_regular_wal(1);
    store.write_regular_wal(2);
    store.write_fence_wal(3);
    store.stuck.push(1);
    let request = WalGcRequest::new(vec![], policy(zero()), policy(zero()));
    store.collect(older_than(0), request);
    assert_eq!(store.wal_ids(), vec![1]);
    assert_eq!((store.wal_count, store.wal_fence_count), (1, 1));
}

#[test]
fn a_second_collection_deletes_nothing() {
    let mut store = Store::new();
    for wal_id in 1..=4 {
        store.write_regular_wal(wal_id);
        store.write_fence_wal(10 + wal_id);
    }
    let request = || WalGcRequest::new(protect_outer_wals(), policy(zero()), policy(zero()));
    store.collect(older_than(0), request());
    assert_eq!(store.wal_ids(), vec![1, 11, 12, 13, 4, 14]);
    let deleted = (store.wal_count, store.wal_fence_count);
    assert_eq!(deleted, (2, 0));
    store.collect(older_than(0), request());
    assert_eq!((store.wal_count, store.wal_fence_count), deleted);
}

#[test]
fn the_filter_only_narrows() {
    let mut store = Store::new();
    for wal_id in 1..=4 {
        store.write_regular_wal(wal_id);
    }
    let even: fn(&WalObject) -> bool = |object| object.id.value() % 2 == 0;
    assert!(store.run(Some(even), older_than(0), wal_request(protect_outer_wals(), zero())));
    assert_eq!(store.wal_ids(), vec![1, 3, 4]);
}

#[test]
fn a_filter_that_allows_nothing_keeps_everything() {
    let mut store = Store::new();
    store.write_regular_wal(1);
    store.write_fence_wal(2);
    let none: fn(&WalObject) -> bool = |_| false;
    let request = WalGcRequest::new(vec![], policy(zero()), policy(zero()));
    assert!(store.run(Some(none), older_than(0), request));
    assert_eq!(store.wal_ids(), vec![1, 2]);
}

#[test]
fn an_invalid_wal_duration_ends_the_collection_before_anything_is_deleted() {
    let mut store = Store::new();
    store.write_regular_wal(1);
    store.write_fence_wal(2);
    let request = WalGcRequest::new(
        vec![],
        policy(Duration::from_secs(u64::MAX)),
        policy(zero()),
    );
    assert!(!store.run(None, older_than(0), request));
    assert_eq!(store.wal_ids(), vec![1, 2]);
}

#[test]
fn an_invalid_fence_duration_ends_the_collection_after_the_wals() {
    let mut store = Store::new();
    store.write_regular_wal(1);
    store.write_fence_wal(2);
    let request = WalGcRequest::new(
        vec![],
        policy(zero()),
        policy(Duration::from_secs(u64::MAX)),
    );
    assert!(!store.run(None, older_than(0), request));
    assert_eq!(store.wal_ids(), vec![2]);
}

#[test]
fn a_failed_listing_fails_the_collection() {
    let awaiting = SlateDbWalGc::new(false)
        .collect(wal_request(vec![], zero()))
        .unwrap()
        .clock_read(at(0));
    let error = awaiting.listed(Err::<Vec<WalObject>, String>("no such bucket".to_string()));
    assert_eq!(error.unwrap_err(), "no such bucket");
}
