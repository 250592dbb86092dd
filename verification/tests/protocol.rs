use sysmet::errors::Error;
use sysmet::host::get_hostname;
use sysmet::lock::{
    lock_path, lock_step, open_plan, Access, LockStep, OpenPlan, LOCKFILE_TIMEOUT_MS,
    SLEEP_BEFORE_RETRY_MS,
};
use sysmet::page::{refresh_requested, BaseContext, HeadContext};
use sysmet::session::FileStep::{
    AwaitSentinel, CreateSentinel, Flush, Load, OpenStore, ReadMetadata, RemoveSentinel, Rewind,
    Write,
};
use sysmet::session::{access_of, failure_of, steps_of, FileStep, Operation};
use sysmet::thresholds::{is_threshold_crossed, PercentSnapshot, Thresholds};

#[test]
fn sentinel_path_appends_lock() {
    assert_eq!(lock_path("/var/lib/sysmet/db.cbor"), "/var/lib/sysmet/db.cbor.lock");
    assert_eq!(lock_path(""), ".lock");
}

#[test]
fn free_store_is_acquired_at_once() {
    assert_eq!(lock_step("db", false, 0), LockStep::Acquire);
    assert_eq!(lock_step("db", false, 10_000), LockStep::Acquire);
}

#[test]
fn busy_store_is_waited_for_until_the_timeout() {
    assert_eq!(lock_step("db", true, 0), LockStep::Wait(100));
    assert_eq!(lock_step("db", true, 4_999), LockStep::Wait(100));
    assert_eq!(lock_step("db", true, 5_000), LockStep::Wait(100));
    assert_eq!(
        lock_step("db", true, 5_001),
        LockStep::GiveUp(Error::LockFileTimeout("db".to_string()))
    );
    assert_eq!(
        lock_step("db", true, u64::MAX),
        LockStep::GiveUp(Error::LockFileTimeout("db".to_string()))
    );
    assert_eq!(SLEEP_BEFORE_RETRY_MS, 100);
    assert_eq!(LOCKFILE_TIMEOUT_MS, 5_000);
}

#[test]
fn second_waiter_succeeds_after_release_or_times_out() {
    // The holder releases after 250 ms: the waiter polls at 0, 100, 200 and
    // acquires on the poll at 300.
    let mut elapsed = 0;
    let mut polls = 0;
    loop {
        polls += 1;
        match lock_step("db", elapsed < 250, elapsed) {
            LockStep::Acquire => break,
            LockStep::Wait(ms) => elapsed += ms,
            LockStep::GiveUp(e) => panic!("gave up: {:?}", e),
        }
    }
    assert_eq!((polls, elapsed), (4, 300));

    // The holder never releases: the waiter gives up on the first poll past
    // the timeout and never acquires.
    let mut elapsed = 0;
    let mut polls = 0;
    let outcome = loop {
        polls += 1;
        match lock_step("db", true, elapsed) {
            LockStep::Wait(ms) => elapsed += ms,
            other => break other,
        }
    };
    assert_eq!(outcome, LockStep::GiveUp(Error::LockFileTimeout("db".to_string())));
    assert_eq!((polls, elapsed), (52, 5_100));
}

#[test]
fn file_is_opened_as_the_access_needs() {
    assert_eq!(
        open_plan(Access::Read),
        OpenPlan { read: true, write: false, create: false, truncate: false }
    );
    assert_eq!(
        open_plan(Access::ReadThenWrite),
        OpenPlan { read: true, write: true, create: true, truncate: false }
    );
    assert_eq!(
        open_plan(Access::Overwrite),
        OpenPlan { read: false, write: true, create: true, truncate: true }
    );
}

#[test]
fn thresholds_are_crossed_strictly_above() {
    assert!(!is_threshold_crossed(Some(90), 90_000));
    assert!(is_threshold_crossed(Some(90), 90_001));
    assert!(!is_threshold_crossed(Some(90), 0));
    assert!(!is_threshold_crossed(None, u64::MAX));
    assert!(is_threshold_crossed(Some(0), 1));
    assert!(!is_threshold_crossed(Some(u32::MAX), 4_294_967_295_000));
    assert!(is_threshold_crossed(Some(u32::MAX), 4_294_967_295_001));
}

#[test]
fn reading_is_compared_field_by_field() {
    let observed = PercentSnapshot::new(96_000, 80_000, 71_000, 85_000, 10_000);
    assert_eq!(observed.memory, 75_500);
    let limits = Thresholds {
        cpu: Some(95),
        ram: Some(90),
        swap: Some(65),
        memory: Some(75),
        disk: Some(85),
        avg_load: None,
    };
    let crossed = limits.evaluate(&observed);
    assert!(crossed.cpu);
    assert!(!crossed.ram);
    assert!(crossed.swap);
    assert!(crossed.memory);
    assert!(!crossed.disk);
    assert!(!crossed.avg_load);
    assert!(crossed.any());
    let calm = limits.evaluate(&PercentSnapshot::new(0, 0, 0, 0, 0));
    assert!(!calm.any());
}

#[test]
fn memory_share_is_the_mean_rounded_down() {
    assert_eq!(PercentSnapshot::new(0, 3, 4, 0, 0).memory, 3);
    assert_eq!(PercentSnapshot::new(0, 3, 5, 0, 0).memory, 4);
    assert_eq!(PercentSnapshot::new(0, u64::MAX, u64::MAX, 0, 0).memory, u64::MAX);
    assert_eq!(PercentSnapshot::new(0, u64::MAX, 0, 0, 0).memory, u64::MAX / 2);
}

#[test]
fn page_contexts_default_to_no_refresh() {
    assert!(!BaseContext::default().refresh_every_minute);
    assert!(!BaseContext::builder().build().refresh_every_minute);
    assert!(BaseContext::builder().refresh_every_minute(true).build().refresh_every_minute);
    assert!(!HeadContext::builder().build().refresh_every_minute);
    assert!(HeadContext::builder().refresh_every_minute(true).build().refresh_every_minute);
    let base = BaseContext::builder().refresh_every_minute(true).build();
    assert!(HeadContext::of_base(&base).refresh_every_minute);
}

#[test]
fn host_name_is_stable() {
    assert_eq!(get_hostname(), get_hostname());
}

#[test]
fn each_operation_has_its_steps() {
    assert_eq!(
        steps_of(Operation::Load),
        vec![AwaitSentinel, CreateSentinel, OpenStore, ReadMetadata, Load, RemoveSentinel]
    );
    assert_eq!(
        steps_of(Operation::LoadForWrite),
        vec![AwaitSentinel, CreateSentinel, OpenStore, ReadMetadata, Load, Rewind]
    );
    assert_eq!(
        steps_of(Operation::WriteToPath),
        vec![AwaitSentinel, CreateSentinel, OpenStore, ReadMetadata, Write, Flush, RemoveSentinel]
    );
    assert_eq!(steps_of(Operation::WriteAndClose), vec![Write, Flush, RemoveSentinel]);
    assert_eq!(steps_of(Operation::CloseWithoutWriting), vec![RemoveSentinel]);
}

#[test]
fn each_operation_opens_the_file_as_it_needs() {
    assert_eq!(access_of(Operation::Load), Some(Access::Read));
    assert_eq!(access_of(Operation::LoadForWrite), Some(Access::ReadThenWrite));
    assert_eq!(access_of(Operation::WriteToPath), Some(Access::Overwrite));
    assert_eq!(access_of(Operation::WriteAndClose), None);
    assert_eq!(access_of(Operation::CloseWithoutWriting), None);
}

#[test]
fn each_step_fails_with_its_error() {
    let path = "/srv/metrics.db";
    assert_eq!(
        failure_of(FileStep::AwaitSentinel, path),
        Error::LockFileTimeout(path.to_string())
    );
    assert_eq!(failure_of(FileStep::CreateSentinel, path), Error::FailedToOpenFile);
    assert_eq!(failure_of(FileStep::OpenStore, path), Error::FailedToOpenFile);
    assert_eq!(failure_of(FileStep::ReadMetadata, path), Error::FailedToGetFileMetadata);
    assert_eq!(failure_of(FileStep::Load, path), Error::CborDeserialize);
    assert_eq!(failure_of(FileStep::Rewind, path), Error::FailedToSetFileCursor);
    assert_eq!(failure_of(FileStep::Write, path), Error::CborSerialize);
    assert_eq!(failure_of(FileStep::Flush, path), Error::FailedToWriteFile);
    assert_eq!(failure_of(FileStep::RemoveSentinel, path), Error::FailedToRemoveFile);
}

#[test]
fn store_is_touched_only_between_sentinel_creation_and_removal() {
    let cycles = [
        vec![Operation::Load],
        vec![Operation::WriteToPath],
        vec![Operation::LoadForWrite, Operation::WriteAndClose],
        vec![Operation::LoadForWrite, Operation::CloseWithoutWriting],
    ];
    for cycle in cycles {
        let mut locked = false;
        for operation in cycle {
            for step in steps_of(operation) {
                match step {
                    FileStep::AwaitSentinel => assert!(!locked),
                    FileStep::CreateSentinel => locked = true,
                    FileStep::RemoveSentinel => {
                        assert!(locked);
                        locked = false;
                    }
                    _ => assert!(locked),
                }
            }
        }
        assert!(!locked);
    }
}

#[test]
fn refresh_is_requested_by_a_ticked_box() {
    assert!(refresh_requested(Some("on")));
    assert!(!refresh_requested(Some("off")));
    assert!(!refresh_requested(Some("ON")));
    assert!(!refresh_requested(Some("")));
    assert!(!refresh_requested(Some("on ")));
    assert!(!refresh_requested(None));
}
