use sysmet::database::Database;
use sysmet::errors::Error;
use sysmet::snapshot::{
    CpuTimes, DiskIo, DiskUsage, LoadAvg, MemoryUsage, NamedNetIo, NetIo, Readings, SnapShot,
    Temperature,
};
use sysmet::timestamp::Timestamp;
use sysmet::version::{is_newer_than_current, requirement_above, CRATE_VERSION};

const T0: i64 = 1_700_000_000;
const HOUR: i64 = 3600;
const DAY: i64 = 86_400;

fn readings_at(secs: i64) -> Readings {
    Readings {
        cpus: vec![CpuTimes { busy_nanos: 1_000_000_000, total_nanos: 4_000_000_000 }],
        memory: MemoryUsage { total_bytes: 8 << 30, used_millipercent: 42_500 },
        swap: MemoryUsage { total_bytes: 2 << 30, used_millipercent: 1_250 },
        networks: vec![
            NamedNetIo {
                name: "lo".to_string(),
                counters: NetIo { bytes_recv: 10, bytes_sent: 10 },
            },
            NamedNetIo {
                name: "eth0".to_string(),
                counters: NetIo { bytes_recv: 1_048_576, bytes_sent: 2_097_152 },
            },
        ],
        disks_io: vec![DiskIo {
            partition: "sda1".to_string(),
            read_bytes: 4096,
            write_bytes: 8192,
        }],
        disks_memory: vec![DiskUsage { mountpoint: "/".to_string(), used_millipercent: 61_000 }],
        temps: vec![Temperature { label: "core".to_string(), millidegrees: 48_500 }],
        load_avgs: LoadAvg { one: 500, five: 250, fifteen: 125 },
        time: Timestamp::new(secs, 0),
    }
}

fn snapshot_at(secs: i64) -> SnapShot {
    SnapShot::new(readings_at(secs), &Vec::new())
}

fn three_hourly() -> Database {
    let mut db = Database::default();
    db.take_snapshot(readings_at(T0), &Vec::new());
    db.take_snapshot(readings_at(T0 + HOUR), &Vec::new());
    db.take_snapshot(readings_at(T0 + 2 * HOUR), &Vec::new());
    db
}

fn times(db: &Database) -> Vec<i64> {
    db.snapshots.iter().map(|s| s.time.secs).collect()
}

#[test]
fn default_store_is_empty_and_current() {
    let db = Database::default();
    assert_eq!(db.version(), CRATE_VERSION);
    assert_eq!(db.version, "0.1.0");
    assert!(db.snapshots.is_empty());
}

#[test]
fn empty_file_loads_as_the_empty_store() {
    let db = Database::load_database(0, None).unwrap();
    assert_eq!(db.version, CRATE_VERSION);
    assert_eq!(db.snapshots.len(), 0);
    assert_eq!(db, Database::default());
    // Nothing is decoded from a file without bytes.
    assert_eq!(Database::load_database(0, Some(three_hourly())), Ok(Database::default()));
}

#[test]
fn file_that_does_not_decode_is_rejected() {
    assert_eq!(Database::load_database(1, None), Err(Error::CborDeserialize));
    assert_eq!(Database::load_database(u64::MAX, None), Err(Error::CborDeserialize));
}

#[test]
fn reload_keeps_snapshots_and_resets_a_newer_version() {
    let stored = Database::from_parts("9.4.2".to_string(), three_hourly().snapshots);
    let loaded = Database::load_database(512, Some(stored.clone())).unwrap();
    assert_eq!(loaded.version, CRATE_VERSION);
    assert_eq!(loaded.snapshots, stored.snapshots);
}

#[test]
fn reload_of_a_current_store_is_the_store() {
    let stored = three_hourly();
    let loaded = Database::load_database(512, Some(stored.clone())).unwrap();
    assert_eq!(loaded, stored);
    assert_eq!(loaded.version, CRATE_VERSION);
}

#[test]
fn reload_keeps_an_older_version_tag() {
    let stored = Database::from_parts("0.0.7".to_string(), three_hourly().snapshots);
    let loaded = Database::load_database(512, Some(stored.clone())).unwrap();
    assert_eq!(loaded.version, "0.0.7");
    assert_eq!(loaded.snapshots, stored.snapshots);
}

#[test]
fn reload_rejects_a_tag_that_is_no_version() {
    let stored = Database::from_parts("latest".to_string(), Vec::new());
    assert_eq!(Database::load_database(512, Some(stored)), Err(Error::SemVer));
    let stored = Database::from_parts(String::new(), Vec::new());
    assert_eq!(stored.reconcile_version(), Err(Error::SemVer));
}

#[test]
fn version_comparison_follows_semver() {
    assert_eq!(is_newer_than_current("0.2.0"), Ok(true));
    assert_eq!(is_newer_than_current("0.1.1"), Ok(true));
    assert_eq!(is_newer_than_current("1.0.0"), Ok(true));
    assert_eq!(is_newer_than_current("0.1.0"), Ok(false));
    assert_eq!(is_newer_than_current("0.0.9"), Ok(false));
    // A pre-release is admitted only by a requirement that names one.
    assert_eq!(is_newer_than_current("0.2.0-alpha.1"), Ok(false));
    assert_eq!(is_newer_than_current("0.1"), Err(Error::SemVer));
    assert_eq!(is_newer_than_current(">0.1.0"), Err(Error::SemVer));
}

#[test]
fn requirement_text_is_greater_than_the_version() {
    assert_eq!(requirement_above("0.1.0"), ">0.1.0");
    assert_eq!(requirement_above(""), ">");
}

#[test]
fn version_policy_rewrites_only_newer_stores() {
    let stored = Database::from_parts("3.0.0".to_string(), three_hourly().snapshots);
    let kept = stored.clone().with_version_policy(false);
    assert_eq!(kept, stored);
    let reset = stored.clone().with_version_policy(true);
    assert_eq!(reset.version, CRATE_VERSION);
    assert_eq!(reset.snapshots, stored.snapshots);
}

#[test]
fn take_snapshot_appends_in_order() {
    let db = three_hourly();
    assert_eq!(times(&db), vec![T0, T0 + HOUR, T0 + 2 * HOUR]);
    assert_eq!(db.snapshots[2], snapshot_at(T0 + 2 * HOUR));
    assert_eq!(db.version, CRATE_VERSION);
}

#[test]
fn take_snapshot_leaves_out_ignored_interfaces() {
    let mut db = Database::default();
    db.take_snapshot(readings_at(T0), &vec!["lo".to_string()]);
    assert_eq!(
        db.snapshots[0].networks,
        vec![NetIo { bytes_recv: 1_048_576, bytes_sent: 2_097_152 }]
    );
}

#[test]
fn push_snapshot_appends() {
    let mut db = Database::default();
    db.push_snapshot(snapshot_at(5));
    db.push_snapshot(snapshot_at(3));
    assert_eq!(times(&db), vec![5, 3]);
}

#[test]
fn retain_since_is_strict_at_the_cutoff() {
    let mut db = three_hourly();
    db.retain_since(Timestamp::new(T0 + HOUR, 0));
    assert_eq!(times(&db), vec![T0 + HOUR, T0 + 2 * HOUR]);
    let mut db = three_hourly();
    db.retain_since(Timestamp::new(T0 + HOUR, 1));
    assert_eq!(times(&db), vec![T0 + 2 * HOUR]);
    let mut db = three_hourly();
    db.retain_since(Timestamp::new(T0 + HOUR - 1, 999_999_999));
    assert_eq!(times(&db), vec![T0 + HOUR, T0 + 2 * HOUR]);
}

#[test]
fn retain_since_compares_nanoseconds_within_a_second() {
    let mut db = Database::default();
    for nanos in [5u32, 7, 6, 9] {
        let mut readings = readings_at(T0);
        readings.time = Timestamp::new(T0, nanos);
        db.take_snapshot(readings, &Vec::new());
    }
    db.retain_since(Timestamp::new(T0, 7));
    let nanos: Vec<u32> = db.snapshots.iter().map(|s| s.time.nanos).collect();
    assert_eq!(nanos, vec![7, 9]);
}

#[test]
fn retain_since_keeps_order_of_unsorted_store() {
    let mut db = Database::default();
    for secs in [50, 10, 40, 20, 30] {
        db.push_snapshot(snapshot_at(secs));
    }
    db.retain_since(Timestamp::new(25, 0));
    assert_eq!(times(&db), vec![50, 40, 30]);
    assert_eq!(db.version, CRATE_VERSION);
}

#[test]
fn retain_since_on_empty_store() {
    let mut db = Database::default();
    db.retain_since(Timestamp::new(0, 0));
    assert_eq!(db, Database::default());
}

#[test]
fn remove_older_at_subtracts_whole_days() {
    let now = Timestamp::new(T0 + 3 * DAY, 500);
    let mut db = Database::default();
    db.push_snapshot(snapshot_at(T0));
    db.push_snapshot(snapshot_at(T0 + DAY));
    let mut at_cutoff = readings_at(T0 + DAY);
    at_cutoff.time = Timestamp::new(T0 + DAY, 500);
    db.take_snapshot(at_cutoff, &Vec::new());
    db.push_snapshot(snapshot_at(T0 + 2 * DAY));
    assert_eq!(db.remove_older_at(now, 2), Ok(()));
    let left: Vec<(i64, u32)> = db.snapshots.iter().map(|s| (s.time.secs, s.time.nanos)).collect();
    assert_eq!(left, vec![(T0 + DAY, 500), (T0 + 2 * DAY, 0)]);
}

#[test]
fn remove_older_at_never_drops_the_cutoff_instant() {
    let now = Timestamp::new(T0 + DAY, 0);
    let mut db = Database::default();
    db.push_snapshot(snapshot_at(T0 - 1));
    db.push_snapshot(snapshot_at(T0));
    db.push_snapshot(snapshot_at(T0 + 1));
    assert_eq!(db.remove_older_at(now, 1), Ok(()));
    assert_eq!(times(&db), vec![T0, T0 + 1]);
}

#[test]
fn remove_older_at_twice_is_remove_older_at_once() {
    let now = Timestamp::new(T0 + 90 * 60, 0);
    let mut once = three_hourly();
    assert_eq!(once.remove_older_at(now, 0), Ok(()));
    let mut twice = once.clone();
    assert_eq!(twice.remove_older_at(now, 0), Ok(()));
    assert_eq!(twice, once);
    assert_eq!(times(&once), vec![T0 + 2 * HOUR]);
}

#[test]
fn remove_older_at_with_negative_days_moves_the_cutoff_forward() {
    let mut db = three_hourly();
    assert_eq!(db.remove_older_at(Timestamp::new(T0 - DAY + HOUR, 0), -1), Ok(()));
    assert_eq!(times(&db), vec![T0 + HOUR, T0 + 2 * HOUR]);
}

#[test]
fn remove_older_at_reports_a_cutoff_out_of_range() {
    let now = Timestamp::new(T0, 0);
    for days in [i64::MAX, i64::MIN, 200_000_000, -200_000_000] {
        let mut db = three_hourly();
        assert_eq!(db.remove_older_at(now, days), Err(Error::OldestDateOverflow));
        assert_eq!(db, three_hourly());
    }
    let mut db = three_hourly();
    assert_eq!(db.remove_older_at(Timestamp::new(i64::MAX, 0), 0), Err(Error::OldestDateOverflow));
    assert_eq!(db.remove_older_at(Timestamp::new(T0, 2_000_000_000), 0), Err(Error::OldestDateOverflow));
    assert_eq!(db, three_hourly());
}

#[test]
fn zero_days_at_two_and_a_half_hours_sweeps_all_three() {
    // The cutoff of a sweep for zero days is the instant of the sweep: all
    // three snapshots were taken strictly before it.
    let mut db = three_hourly();
    let now = Timestamp::new(T0 + 2 * HOUR + HOUR / 2, 0);
    assert_eq!(db.remove_older_at(now, 0), Ok(()));
    assert_eq!(times(&db), Vec::<i64>::new());
    assert_eq!(Database::load_database(512, Some(db.clone())), Ok(db));
}

#[test]
fn sweep_between_first_and_second_keeps_two_and_reloads_exactly() {
    let mut db = three_hourly();
    db.retain_since(Timestamp::new(T0 + HOUR / 2, 0));
    assert_eq!(times(&db), vec![T0 + HOUR, T0 + 2 * HOUR]);
    let reloaded = Database::load_database(512, Some(db.clone())).unwrap();
    assert_eq!(reloaded.snapshots.len(), 2);
    assert_eq!(reloaded.snapshots[0], snapshot_at(T0 + HOUR));
    assert_eq!(reloaded.snapshots[1], snapshot_at(T0 + 2 * HOUR));
    assert_eq!(reloaded, db);
}

#[test]
fn remove_older_by_the_clock() {
    let far_future = 32_503_680_000; // year 3000
    let mut db = Database::default();
    db.push_snapshot(snapshot_at(0));
    db.push_snapshot(snapshot_at(far_future));
    db.push_snapshot(snapshot_at(1));
    assert_eq!(db.remove_older(7), Ok(()));
    assert_eq!(times(&db), vec![far_future]);
    assert_eq!(db.remove_older(i64::MAX), Err(Error::OldestDateOverflow));
    assert_eq!(times(&db), vec![far_future]);
}

#[test]
fn timestamps_order_by_seconds_then_nanoseconds() {
    let a = Timestamp::new(10, 5);
    assert!(a.before(&Timestamp::new(11, 0)));
    assert!(a.before(&Timestamp::new(10, 6)));
    assert!(!a.before(&a));
    assert!(!a.before(&Timestamp::new(10, 4)));
    assert!(!a.before(&Timestamp::new(9, 999_999_999)));
    assert!(Timestamp::new(-1, 0).before(&Timestamp::new(0, 0)));
    assert_eq!(a.timestamp(), 10);
}

#[test]
fn every_error_has_its_message() {
    assert_eq!(Error::Psutil.message(), "Failed to get stat from psutil");
    assert_eq!(Error::SemVer.message(), "SemVer failed");
    assert_eq!(Error::CborDeserialize.message(), "Failed to convert data from cbor");
    assert_eq!(Error::CborSerialize.message(), "Failed to convert data to cbor");
    assert_eq!(Error::InvalidPath.message(), "Provided path is invalid");
    assert_eq!(Error::FailedToOpenFile.message(), "Failed to open file");
    assert_eq!(Error::FailedToGetFileMetadata.message(), "Failed to get file metadata");
    assert_eq!(Error::FailedToWriteFile.message(), "Failed to write to file");
    assert_eq!(Error::FailedToSetFileCursor.message(), "Failed to set file cursor");
    assert_eq!(Error::FailedToRemoveFile.message(), "Failed to remove file");
    assert_eq!(
        Error::LockFileTimeout("/var/db.cbor".to_string()).message(),
        "Timeout while trying to lock /var/db.cbor"
    );
    assert_eq!(Error::OldestDateOverflow.message(), "Oldest date is too big to big calculated");
}
