//! Single decisions: ages, ranges, classes, disposals.
use slatedb_wal_gc::{
    Disposal, Duration, GcCounter, InvalidDuration, ObjectMetadata, Remaining, SlateDbWalGc, Step,
    TimeDelta, Timestamp, WalFileId, WalFileRange, WalGcPolicy, WalObject, WalObjectKind,
};
use std::ops::Bound;

fn object(id: u64, size: u64, last_modified: Timestamp) -> WalObject {
    WalObject {
        id: WalFileId(id),
        metadata: ObjectMetadata {
            size,
            last_modified,
        },
    }
}

fn ts(secs: i64, nanos: u32) -> Timestamp {
    Timestamp::new(secs, nanos).unwrap()
}

fn span(secs: u64, nanos: u32) -> TimeDelta {
    TimeDelta::from_std(Duration::new(secs, nanos).unwrap()).unwrap()
}

fn same(left: &TimeDelta, right: &TimeDelta) -> bool {
    left.at_most(right) && right.at_most(left)
}

fn ids(objects: &[WalObject]) -> Vec<u64> {
    objects.iter().map(|object| object.id.value()).collect()
}

#[test]
fn resource_names_the_class() {
    assert_eq!(WalObjectKind::Wal.resource(), "WAL");
    assert_eq!(WalObjectKind::Fence.resource(), "WAL fence");
}

#[test]
fn range_ends_are_included_or_not() {
    let contains = |start, end, id| SlateDbWalGc::range_contains(&WalFileRange(start, end), id);
    assert!(contains(Bound::Included(3), Bound::Included(5), 3));
    assert!(contains(Bound::Included(3), Bound::Included(5), 5));
    assert!(!contains(Bound::Included(3), Bound::Included(5), 2));
    assert!(!contains(Bound::Included(3), Bound::Included(5), 6));
    assert!(!contains(Bound::Excluded(3), Bound::Excluded(5), 3));
    assert!(contains(Bound::Excluded(3), Bound::Excluded(5), 4));
    assert!(!contains(Bound::Excluded(3), Bound::Excluded(5), 5));
    assert!(contains(Bound::Unbounded, Bound::Excluded(5), 0));
    assert!(contains(Bound::Excluded(5), Bound::Unbounded, u64::MAX));
    assert!(contains(Bound::Unbounded, Bound::Unbounded, 7));
    assert!(!contains(Bound::Included(5), Bound::Included(3), 4));
}

#[test]
fn instants_have_a_range() {
    assert!(Timestamp::new(-8_334_601_228_800, 0).is_some());
    assert!(Timestamp::new(-8_334_601_228_801, 0).is_none());
    assert!(Timestamp::new(8_210_266_876_799, 1_999_999_999).is_some());
    assert!(Timestamp::new(8_210_266_876_800, 0).is_none());
    assert!(Timestamp::new(0, 2_000_000_000).is_none());
}

#[test]
fn the_range_of_instants_is_that_of_chrono() {
    let first = chrono::DateTime::<chrono::Utc>::MIN_UTC;
    let last = chrono::DateTime::<chrono::Utc>::MAX_UTC;
    assert!(Timestamp::new(first.timestamp(), 0).is_some());
    assert!(Timestamp::new(first.timestamp() - 1, 0).is_none());
    assert!(Timestamp::new(last.timestamp(), last.timestamp_subsec_nanos()).is_some());
    assert!(Timestamp::new(last.timestamp() + 1, 0).is_none());
}

#[test]
fn ages_count_seconds_and_nanoseconds() {
    let age = ts(1_000, 500).signed_duration_since(&ts(990, 400));
    assert!(same(&age, &span(10, 100)));
    let age = ts(1_000, 400).signed_duration_since(&ts(990, 500));
    assert!(same(&age, &span(9, 999_999_900)));
    let age = ts(-5, 0).signed_duration_since(&ts(-100, 0));
    assert!(same(&age, &span(95, 0)));
}

#[test]
fn ages_may_be_negative() {
    let age = ts(990, 0).signed_duration_since(&ts(990, 1));
    assert!(age.at_most(&span(0, 0)));
    assert!(!span(0, 0).at_most(&age));
}

#[test]
fn the_longest_age() {
    let first = ts(-8_334_601_228_800, 0);
    let last = ts(8_210_266_876_799, 999_999_999);
    let age = last.signed_duration_since(&first);
    assert!(same(&age, &span(16_544_868_105_599, 999_999_999)));
}

#[test]
fn leap_seconds_between_times_of_day_count() {
    // The leap second at the end of 12:30 has begun half a second ago; 12:31 has begun.
    let leap = ts(45_059, 1_500_000_000);
    let age = ts(45_060, 0).signed_duration_since(&leap);
    assert!(same(&age, &span(0, 500_000_000)));
    let age = leap.signed_duration_since(&ts(45_058, 0));
    assert!(same(&age, &span(2, 500_000_000)));
    // The time of day of the later instant is the earlier one.
    let leap = ts(86_400 + 59, 1_500_000_000);
    let age = leap.signed_duration_since(&ts(100, 0));
    assert!(same(&age, &span(86_359, 500_000_000)));
}

#[test]
fn ages_hold_at_leap_seconds_in_odd_places() {
    let age = ts(8_210_266_876_799, 1_999_999_999).signed_duration_since(&ts(8_210_266_876_799, 0));
    assert!(same(&age, &span(1, 999_999_999)));
    let age = ts(7, 1_000_000_000).signed_duration_since(&ts(7, 0));
    assert!(same(&age, &span(1, 0)));
}

#[test]
fn an_age_across_a_leap_second_at_midnight_may_shrink() {
    let leap = ts(86_399, 1_500_000_000);
    let age = ts(86_400, 0).signed_duration_since(&leap);
    assert!(age.at_most(&span(0, 0)));
    assert!(!span(0, 0).at_most(&age));
}

#[test]
fn an_age_loses_a_leap_second_at_midnight() {
    let leap = ts(45_059, 1_500_000_000);
    let before = ts(86_399, 600_000_000).signed_duration_since(&leap);
    assert!(same(&before, &span(41_340, 100_000_000)));
    let after = ts(86_400, 500_000_000).signed_duration_since(&leap);
    assert!(same(&after, &span(41_340, 0)));
    let second_later = ts(86_400, 600_000_000).signed_duration_since(&leap);
    assert!(same(&second_later, &before));
}

#[test]
fn instants_tell_their_parts() {
    let instant = ts(-7, 1_234_567_890);
    assert_eq!(instant.timestamp(), -7);
    assert_eq!(instant.timestamp_subsec_nanos(), 1_234_567_890);
}

#[test]
fn durations_up_to_the_largest_number_of_milliseconds_are_valid() {
    let max = Duration::new(9_223_372_036_854_775, 807_000_000).unwrap();
    assert!(same(
        &TimeDelta::from_std(max).unwrap(),
        &span(9_223_372_036_854_775, 807_000_000)
    ));
    let over = Duration::new(9_223_372_036_854_775, 807_000_001).unwrap();
    assert_eq!(TimeDelta::from_std(over).unwrap_err(), InvalidDuration);
    let over = Duration::from_secs(9_223_372_036_854_776);
    assert_eq!(TimeDelta::from_std(over).unwrap_err(), InvalidDuration);
    let over = Duration::from_secs(u64::MAX);
    assert_eq!(TimeDelta::from_std(over).unwrap_err(), InvalidDuration);
}

#[test]
fn durations_compare_by_length() {
    assert!(span(1, 999_999_999).at_most(&span(2, 0)));
    assert!(!span(2, 0).at_most(&span(1, 999_999_999)));
    assert!(span(2, 0).at_most(&span(2, 0)));
}

#[test]
fn nanoseconds_of_a_duration_are_less_than_a_second() {
    assert!(Duration::new(1, 999_999_999).is_some());
    assert!(Duration::new(1, 1_000_000_000).is_none());
}

#[test]
fn eligible_means_old_enough_and_unreferenced() {
    let old = object(5, 1, ts(0, 0));
    let now = ts(60, 1);
    let minute = span(60, 0);
    let eligible = |now: &Timestamp, ranges: &[WalFileRange]| {
        SlateDbWalGc::is_wal_sst_eligible_for_deletion(now, &old, &minute, ranges)
    };
    assert!(eligible(&now, &[]));
    assert!(!eligible(&ts(60, 0), &[]));
    let below = WalFileRange(Bound::Unbounded, Bound::Excluded(5));
    let holding = WalFileRange(Bound::Included(5), Bound::Included(5));
    assert!(eligible(&now, &[below]));
    assert!(!eligible(&now, &[below, holding]));
}

#[test]
fn a_listing_is_parted_in_order() {
    let t = ts(0, 0);
    let listing = vec![
        object(1, 0, t),
        object(2, 7, t),
        object(3, 0, t),
        object(4, 1, t),
    ];
    let (fences, wals) = SlateDbWalGc::partition_by_kind(listing);
    assert_eq!(ids(&fences), vec![1, 3]);
    assert_eq!(ids(&wals), vec![2, 4]);
}

#[test]
fn eligible_objects_are_selected_in_order() {
    let listing = vec![
        object(4, 1, ts(0, 0)),
        object(2, 1, ts(50, 0)),
        object(9, 1, ts(1, 0)),
        object(3, 1, ts(0, 0)),
    ];
    let ranges = [WalFileRange(Bound::Included(3), Bound::Excluded(4))];
    let selected = SlateDbWalGc::select_eligible(listing, &ts(100, 0), &span(60, 0), &ranges);
    assert_eq!(ids(&selected), vec![4, 9]);
}

fn remaining(gc_filter: bool) -> Remaining {
    Remaining {
        gc_filter,
        utc_now: ts(100, 0),
        referenced_ranges: vec![],
        fence: None,
    }
}

#[test]
fn a_pass_shows_its_candidates_to_the_filter() {
    let policy = WalGcPolicy {
        min_age: Duration::from_secs(10),
        dry_run: false,
    };
    let listing = vec![object(1, 1, ts(0, 0)), object(2, 1, ts(95, 0))];
    match SlateDbWalGc::collect_kind(WalObjectKind::Wal, listing, policy, remaining(true)) {
        Step::Filter { candidates, .. } => assert_eq!(ids(&candidates), vec![1]),
        other => panic!("{:?}", other),
    }
}

#[test]
fn a_pass_without_a_filter_disposes_at_once() {
    let policy = WalGcPolicy {
        min_age: Duration::from_secs(10),
        dry_run: false,
    };
    let listing = vec![object(1, 1, ts(0, 0)), object(2, 1, ts(95, 0))];
    match SlateDbWalGc::collect_kind(WalObjectKind::Wal, listing, policy, remaining(false)) {
        Step::Dispose {
            kind: WalObjectKind::Wal,
            disposal: Disposal::Delete { ids },
            on_disposed,
        } => {
            assert_eq!(ids, vec![WalFileId(1)]);
            assert!(matches!(on_disposed.disposed(), Step::Finished));
        }
        other => panic!("{:?}", other),
    }
}

#[test]
fn a_pass_under_a_minimum_age_that_is_too_long_ends_the_collection() {
    let begin = |wal_ssts, dry_run, gc_filter| {
        let policy = WalGcPolicy {
            min_age: Duration::new(u64::MAX, 999_999_999).unwrap(),
            dry_run,
        };
        SlateDbWalGc::try_collect_kind(WalObjectKind::Wal, wal_ssts, policy, remaining(gc_filter))
    };
    assert!(matches!(begin(vec![], true, false), Step::InvalidDuration));
    assert!(matches!(begin(vec![], false, false), Step::InvalidDuration));
    let old = object(1, 1, ts(0, 0));
    assert!(matches!(begin(vec![old], false, true), Step::InvalidDuration));
}

#[test]
fn a_pass_under_a_valid_minimum_age_goes_on() {
    let policy = WalGcPolicy {
        min_age: Duration::from_secs(10),
        dry_run: false,
    };
    let listing = vec![object(1, 1, ts(0, 0)), object(2, 1, ts(95, 0))];
    match SlateDbWalGc::try_collect_kind(WalObjectKind::Wal, listing, policy, remaining(true)) {
        Step::Filter { candidates, .. } => assert_eq!(ids(&candidates), vec![1]),
        other => panic!("{:?}", other),
    }
}

#[test]
fn an_object_modified_now_or_later_is_not_eligible() {
    let eligible = |now: Timestamp, then: Timestamp| {
        let written = object(1, 1, then);
        SlateDbWalGc::is_wal_sst_eligible_for_deletion(&now, &written, &span(0, 0), &[])
    };
    assert!(!eligible(ts(100, 5), ts(100, 5)));
    assert!(!eligible(ts(100, 5), ts(100, 6)));
    assert!(!eligible(ts(100, 5), ts(101, 0)));
    assert!(!eligible(ts(119, 1_500_000_000), ts(120, 0)));
    // Half a second into the leap second that ends the day, the next day has not begun.
    assert!(eligible(ts(86_399, 1_500_000_000), ts(86_400, 0)));
    assert!(!eligible(ts(86_399, 1_500_000_000), ts(86_400, 500_000_000)));
}

#[test]
fn an_eligible_object_stays_eligible() {
    let old = object(5, 1, ts(0, 0));
    let eligible = |secs, min_age| {
        SlateDbWalGc::is_wal_sst_eligible_for_deletion(&ts(secs, 0), &old, &span(min_age, 0), &[])
    };
    assert!(!eligible(60, 60));
    assert!(eligible(61, 60));
    assert!(eligible(62, 60));
    assert!(eligible(61, 59));
}

#[test]
fn dry_run_is_announced_if_there_is_anything_to_report() {
    let report = |kind, ids: Vec<WalFileId>| {
        match SlateDbWalGc::maybe_delete_wal_ssts(kind, ids, true) {
            Disposal::DryRun {
                ids,
                announce,
                explain_fences,
            } => (ids.len(), announce, explain_fences),
            other => panic!("{:?}", other),
        }
    };
    assert_eq!(report(WalObjectKind::Wal, vec![]), (0, false, false));
    assert_eq!(report(WalObjectKind::Fence, vec![]), (0, false, false));
    assert_eq!(report(WalObjectKind::Wal, vec![WalFileId(1)]), (1, true, false));
    assert_eq!(report(WalObjectKind::Fence, vec![WalFileId(1)]), (1, true, true));
}

#[test]
fn deletions_are_handed_on_as_they_are() {
    match SlateDbWalGc::maybe_delete_wal_ssts(
        WalObjectKind::Fence,
        vec![WalFileId(2), WalFileId(1)],
        false,
    ) {
        Disposal::Delete { ids } => assert_eq!(ids, vec![WalFileId(2), WalFileId(1)]),
        other => panic!("{:?}", other),
    }
}

#[test]
fn each_class_has_its_counter() {
    let counter = SlateDbWalGc::counter_after_delete;
    assert_eq!(counter(WalObjectKind::Wal, true), Some(GcCounter::GcWalCount));
    assert_eq!(counter(WalObjectKind::Fence, true), Some(GcCounter::GcWalFenceCount));
    assert_eq!(counter(WalObjectKind::Wal, false), None);
    assert_eq!(counter(WalObjectKind::Fence, false), None);
}
