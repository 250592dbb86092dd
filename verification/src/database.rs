//! The store: a version tag and the snapshots in the order in which they
//! were appended.

use crate::errors::Error;
use crate::snapshot::{kept_networks, Readings, SnapShot};
use crate::timestamp::{
    chrono_days_before, clock_now, days_before, Timestamp, NANOS_PER_SEC, SECS_PER_DAY,
};
use crate::version::{is_newer_than_current, newer_than_current, CRATE_VERSION};
use vstd::prelude::*;
use vstd::string::StringExecFns;

verus! {

/// The versioned, ordered sequence of snapshots that one file holds.
#[derive(Clone, Debug, PartialEq, Eq)]
pub struct Database {
    pub version: String,
    pub snapshots: Vec<SnapShot>,
}

/// What a store says: its version tag and its snapshots in order.
pub struct StoreModel {
    pub version: Seq<char>,
    pub snapshots: Seq<SnapShot>,
}

impl View for Database {
    type V = StoreModel;

    open spec fn view(&self) -> StoreModel {
        StoreModel { version: self.version@, snapshots: self.snapshots@ }
    }
}

/// The snapshots of `all` that are not strictly earlier than `cutoff`, in
/// their order.
pub open spec fn kept_since(all: Seq<SnapShot>, cutoff: Timestamp) -> Seq<SnapShot>
    decreases all.len(),
{
    if all.len() == 0 {
        Seq::empty()
    } else if all.last().time.is_before(cutoff) {
        kept_since(all.drop_last(), cutoff)
    } else {
        kept_since(all.drop_last(), cutoff).push(all.last())
    }
}

/// Whether no snapshot of `all` was taken before one that precedes it in
/// the store. Appending in the order of measurement makes it so; nothing
/// in the store enforces it.
pub open spec fn is_chronological(all: Seq<SnapShot>) -> bool {
    forall|i: int, j: int| 0 <= i <= j < all.len() ==> !all[j].time.is_before(all[i].time)
}

/// The tag that a store stored under `stored` carries once it is loaded:
/// this library's version where the stored one is newer, else the stored
/// one; `None` where the stored tag is no semantic version.
pub open spec fn reconciled_version(stored: Seq<char>) -> Option<Seq<char>> {
    match newer_than_current(stored) {
        Some(true) => Some(CRATE_VERSION@),
        Some(false) => Some(stored),
        None => None,
    }
}

/// The store that a file of `file_size` bytes stands for, where its bytes
/// decode to `decoded`: the empty store for the empty file; else the
/// decoded store with its tag reconciled.
pub open spec fn loaded(file_size: u64, decoded: Option<StoreModel>) -> Result<StoreModel, Error> {
    if file_size == 0 {
        Ok(StoreModel { version: CRATE_VERSION@, snapshots: Seq::empty() })
    } else {
        match decoded {
            None => Err(Error::CborDeserialize),
            Some(stored) => match reconciled_version(stored.version) {
                Some(tag) => Ok(StoreModel { version: tag, snapshots: stored.snapshots }),
                None => Err(Error::SemVer),
            },
        }
    }
}

/// The cutoff of a retention sweep run at `now` for `days` days, as
/// `chrono` computes it; `None` where it cannot be represented.
pub open spec fn retention_cutoff(now: Timestamp, days: i64) -> Option<Timestamp> {
    match chrono_days_before(now.secs, now.nanos, days) {
        Some((secs, nanos)) => Some(Timestamp { secs, nanos }),
        None => None,
    }
}

/// What a retention sweep run at `now` for `days` days keeps of `all`;
/// `None` where its cutoff cannot be represented.
pub open spec fn swept(all: Seq<SnapShot>, now: Timestamp, days: i64) -> Option<Seq<SnapShot>> {
    match retention_cutoff(now, days) {
        Some(cutoff) => Some(kept_since(all, cutoff)),
        None => None,
    }
}

/// The snapshots of a store that held `all`, once a retention sweep for
/// `days` days was run on it at `now`: what the sweep keeps, or all of them
/// where the sweep fails.
pub open spec fn after_sweep(all: Seq<SnapShot>, now: Timestamp, days: i64) -> Seq<SnapShot> {
    match swept(all, now, days) {
        Some(kept) => kept,
        None => all,
    }
}

impl Default for Database {
    /// The empty store, tagged with this library's version.
    fn default() -> (db: Database)
        ensures
            db.version@ == CRATE_VERSION@,
            db.snapshots@.len() == 0,
    {
        Database { version: String::from_str(CRATE_VERSION), snapshots: Vec::new() }
    }
}

impl Database {
    /// The version tag.
    pub fn version(&self) -> (tag: &String)
        ensures
            tag@ == self.version@,
    {
        &self.version
    }

    /// The store with the given tag and snapshots.
    pub fn from_parts(version: String, snapshots: Vec<SnapShot>) -> (db: Database)
        ensures
            db.version@ == version@,
            db.snapshots == snapshots,
    {
        Database { version, snapshots }
    }

    /// Applies the outcome of the version comparison: a store found to be
    /// newer than this library is tagged with this library's version, any
    /// other keeps its tag. The snapshots stay as they are.
    pub fn with_version_policy(self, newer: bool) -> (db: Database)
        ensures
            db.snapshots == self.snapshots,
            db.version@ == if newer {
                CRATE_VERSION@
            } else {
                self.version@
            },
    {
        if newer {
            Database { version: String::from_str(CRATE_VERSION), snapshots: self.snapshots }
        } else {
            self
        }
    }

    /// Compares the stored tag with this library's version and rewrites it
    /// where it is newer.
    ///
    /// Fails with `Error::SemVer` exactly where the stored tag is no
    /// semantic version.
    pub fn reconcile_version(self) -> (r: Result<Database, Error>)
        ensures
            match reconciled_version(self.version@) {
                Some(tag) => r is Ok && r.unwrap().version@ == tag && r.unwrap().snapshots
                    == self.snapshots,
                None => r == Err::<Database, Error>(Error::SemVer),
            },
    {
        match is_newer_than_current(self.version.as_str()) {
            Ok(newer) => Ok(self.with_version_policy(newer)),
            Err(e) => Err(e),
        }
    }

    /// The store that a file of `file_size` bytes stands for, given what
    /// its bytes decode to (`None` where they decode to no store).
    ///
    /// A file of zero bytes is the empty store with this library's version.
    /// Any other file must decode, else the load fails with
    /// `Error::CborDeserialize`; the tag of the decoded store is then
    /// reconciled, which fails with `Error::SemVer` where the tag is no
    /// semantic version.
    pub fn load_database(file_size: u64, decoded: Option<Database>) -> (r: Result<Database, Error>)
        ensures
            match loaded(
                file_size,
                match decoded {
                    Some(stored) => Some(stored@),
                    None => None,
                },
            ) {
                Ok(store) => r is Ok && r.unwrap()@ == store,
                Err(error) => r == Err::<Database, Error>(error),
            },
    {
        if file_size == 0 {
            let empty = Database::default();
            proof {
                assert(empty.snapshots@ =~= Seq::empty());
            }
            return Ok(empty);
        }
        match decoded {
            None => Err(Error::CborDeserialize),
            Some(stored) => stored.reconcile_version(),
        }
    }

    /// Appends the snapshot made of `readings`, without the interfaces named
    /// in `networks_to_ignore`, after the snapshots already held.
    pub fn take_snapshot(&mut self, readings: Readings, networks_to_ignore: &Vec<String>)
        ensures
            final(self).version@ == old(self).version@,
            final(self).snapshots@.len() == old(self).snapshots@.len() + 1,
            final(self).snapshots@.drop_last() == old(self).snapshots@,
            final(self).snapshots@.last().time == readings.time,
            final(self).snapshots@.last().cpus == readings.cpus,
            final(self).snapshots@.last().memory == readings.memory,
            final(self).snapshots@.last().swap == readings.swap,
            final(self).snapshots@.last().networks@ == kept_networks(
                readings.networks@,
                networks_to_ignore@,
            ),
            final(self).snapshots@.last().disks_io == readings.disks_io,
            final(self).snapshots@.last().disks_memory == readings.disks_memory,
            final(self).snapshots@.last().temps == readings.temps,
            final(self).snapshots@.last().load_avgs == readings.load_avgs,
    {
        let snap = SnapShot::new(readings, networks_to_ignore);
        self.push_snapshot(snap);
    }

    /// Appends `snap` after the snapshots already held.
    pub fn push_snapshot(&mut self, snap: SnapShot)
        ensures
            final(self).version@ == old(self).version@,
            final(self).snapshots@ == old(self).snapshots@.push(snap),
    {
        self.snapshots.push(snap);
    }

    /// Drops every snapshot taken strictly before `cutoff` and keeps the
    /// others in their order.
    pub fn retain_since(&mut self, cutoff: Timestamp)
        ensures
            final(self).version@ == old(self).version@,
            final(self).snapshots@ == kept_since(old(self).snapshots@, cutoff),
    {
        let ghost before = self.snapshots@;
        let ghost tag = self.version@;
        let ghost n = before.len() as int;
        let mut stack: Vec<SnapShot> = Vec::new();
        while self.snapshots.len() > 0
            invariant
                self.version@ == tag,
                n == before.len(),
                self.snapshots@.len() + stack@.len() == n,
                self.snapshots@ == before.take(self.snapshots@.len() as int),
                forall|j: int| 0 <= j < stack@.len() ==> stack@[j] == before[n - 1 - j],
            decreases self.snapshots@.len(),
        {
            match self.snapshots.pop() {
                Some(snap) => {
                    stack.push(snap);
                },
                None => {},
            }
        }
        while stack.len() > 0
            invariant
                self.version@ == tag,
                n == before.len(),
                stack@.len() <= n,
                forall|j: int| 0 <= j < stack@.len() ==> stack@[j] == before[n - 1 - j],
                self.snapshots@ == kept_since(before.take(n - stack@.len()), cutoff),
            decreases stack@.len(),
        {
            proof {
                let i = n - stack@.len();
                assert(before.take(i + 1).drop_last() =~= before.take(i));
                assert(before.take(i + 1).last() == before[i]);
            }
            match stack.pop() {
                Some(snap) => {
                    if !snap.time.before(&cutoff) {
                        self.snapshots.push(snap);
                    }
                },
                None => {},
            }
        }
        proof {
            assert(before.take(n) =~= before);
        }
    }

    /// The retention sweep as run at the instant `now`: drops every snapshot
    /// taken strictly before `now` less `older_than_days` days.
    ///
    /// Fails with `Error::OldestDateOverflow`, leaving the store as it was,
    /// exactly where that cutoff cannot be represented. A day counts 86 400
    /// seconds.
    pub fn remove_older_at(&mut self, now: Timestamp, older_than_days: i64) -> (r: Result<
        (),
        Error,
    >)
        ensures
            final(self).version@ == old(self).version@,
            final(self).snapshots@ == after_sweep(old(self).snapshots@, now, older_than_days),
            match swept(old(self).snapshots@, now, older_than_days) {
                Some(_) => r == Ok::<(), Error>(()),
                None => r == Err::<(), Error>(Error::OldestDateOverflow),
            },
            r is Ok && now.nanos < NANOS_PER_SEC ==> exists|cutoff: Timestamp|
                cutoff.secs == now.secs - older_than_days * SECS_PER_DAY && cutoff.nanos
                    == now.nanos && final(self).snapshots@ == #[trigger] kept_since(
                    old(self).snapshots@,
                    cutoff,
                ),
    {
        match days_before(now, older_than_days) {
            Some(cutoff) => {
                self.retain_since(cutoff);
                Ok(())
            },
            None => Err(Error::OldestDateOverflow),
        }
    }

    /// The retention sweep as run now, by the system clock.
    ///
    /// Whatever instant the clock reads, the outcome is that of
    /// `remove_older_at` for that instant.
    pub fn remove_older(&mut self, older_than_days: i64) -> (r: Result<(), Error>)
        ensures
            final(self).version@ == old(self).version@,
            exists|now: Timestamp|
                final(self).snapshots@ == #[trigger] after_sweep(
                    old(self).snapshots@,
                    now,
                    older_than_days,
                ) && match swept(old(self).snapshots@, now, older_than_days) {
                    Some(_) => r == Ok::<(), Error>(()),
                    None => r == Err::<(), Error>(Error::OldestDateOverflow),
                },
    {
        let now = clock_now();
        self.remove_older_at(now, older_than_days)
    }
}

/// Appending one snapshot to the input of a sweep appends it to the output
/// where it is recent enough, and changes nothing where it is not.
pub proof fn lemma_kept_since_push(all: Seq<SnapShot>, snap: SnapShot, cutoff: Timestamp)
    ensures
        kept_since(all.push(snap), cutoff) == if snap.time.is_before(cutoff) {
            kept_since(all, cutoff)
        } else {
            kept_since(all, cutoff).push(snap)
        },
{
    assert(all.push(snap).drop_last() =~= all);
}

/// A retention sweep is idempotent: sweeping what a sweep kept, with the
/// same cutoff, keeps all of it.
pub proof fn lemma_kept_since_idempotent(all: Seq<SnapShot>, cutoff: Timestamp)
    ensures
        kept_since(kept_since(all, cutoff), cutoff) == kept_since(all, cutoff),
    decreases all.len(),
{
    if all.len() > 0 {
        lemma_kept_since_idempotent(all.drop_last(), cutoff);
        if !all.last().time.is_before(cutoff) {
            lemma_kept_since_push(kept_since(all.drop_last(), cutoff), all.last(), cutoff);
        }
    }
}

/// A retention sweep never drops a snapshot taken at the cutoff or later.
pub proof fn lemma_kept_since_keeps_recent(all: Seq<SnapShot>, cutoff: Timestamp, i: int)
    requires
        0 <= i < all.len(),
        !all[i].time.is_before(cutoff),
    ensures
        kept_since(all, cutoff).contains(all[i]),
    decreases all.len(),
{
    let kept_before = kept_since(all.drop_last(), cutoff);
    if i == all.len() - 1 {
        assert(kept_before.push(all.last())[kept_before.len() as int] == all[i]);
    } else {
        lemma_kept_since_keeps_recent(all.drop_last(), cutoff, i);
        let k = choose|k: int| 0 <= k < kept_before.len() && kept_before[k] == all[i];
        if !all.last().time.is_before(cutoff) {
            assert(kept_before.push(all.last())[k] == all[i]);
        }
    }
}

/// What a retention sweep keeps was in the store, and none of it was taken
/// before the cutoff.
pub proof fn lemma_kept_since_only_recent(all: Seq<SnapShot>, cutoff: Timestamp, k: int)
    requires
        0 <= k < kept_since(all, cutoff).len(),
    ensures
        all.contains(kept_since(all, cutoff)[k]),
        !kept_since(all, cutoff)[k].time.is_before(cutoff),
    decreases all.len(),
{
    if all.len() > 0 {
        let kept_before = kept_since(all.drop_last(), cutoff);
        if k < kept_before.len() {
            lemma_kept_since_only_recent(all.drop_last(), cutoff, k);
            let j = choose|j: int| 0 <= j < all.drop_last().len() && all.drop_last()[j] == kept_before[k];
            assert(all[j] == kept_before[k]);
        } else {
            assert(all[all.len() - 1] == all.last());
        }
    }
}

/// Where every snapshot was taken at the cutoff or later, a sweep changes
/// nothing.
pub proof fn lemma_kept_since_all_recent(all: Seq<SnapShot>, cutoff: Timestamp)
    requires
        forall|i: int| 0 <= i < all.len() ==> !(#[trigger] all[i]).time.is_before(cutoff),
    ensures
        kept_since(all, cutoff) == all,
    decreases all.len(),
{
    if all.len() > 0 {
        lemma_kept_since_all_recent(all.drop_last(), cutoff);
        assert(all.drop_last().push(all.last()) =~= all);
    }
}

/// Where every snapshot was taken before the cutoff, a sweep keeps none.
pub proof fn lemma_kept_since_none_recent(all: Seq<SnapShot>, cutoff: Timestamp)
    requires
        forall|i: int| 0 <= i < all.len() ==> (#[trigger] all[i]).time.is_before(cutoff),
    ensures
        kept_since(all, cutoff) == Seq::<SnapShot>::empty(),
    decreases all.len(),
{
    if all.len() > 0 {
        lemma_kept_since_none_recent(all.drop_last(), cutoff);
    }
}

/// Of a store in chronological order a sweep keeps the end: it drops the
/// first `dropped` snapshots and no other.
pub proof fn lemma_sweep_of_chronological_keeps_the_end(
    all: Seq<SnapShot>,
    cutoff: Timestamp,
) -> (dropped: int)
    requires
        is_chronological(all),
    ensures
        0 <= dropped <= all.len(),
        kept_since(all, cutoff) == all.skip(dropped),
    decreases all.len(),
{
    if all.len() == 0 {
        assert(all.skip(0) =~= Seq::<SnapShot>::empty());
        0
    } else {
        let earlier = all.drop_last();
        assert(is_chronological(earlier)) by {
            assert forall|i: int, j: int| 0 <= i <= j < earlier.len() implies !earlier[j].time.is_before(
                earlier[i].time,
            ) by {
                assert(earlier[i] == all[i] && earlier[j] == all[j]);
            }
        }
        if all.last().time.is_before(cutoff) {
            assert forall|i: int| 0 <= i < earlier.len() implies (#[trigger] earlier[i]).time.is_before(
                cutoff,
            ) by {
                assert(earlier[i] == all[i]);
                assert(!all[all.len() - 1].time.is_before(all[i].time));
            }
            lemma_kept_since_none_recent(earlier, cutoff);
            assert(all.skip(all.len() as int) =~= Seq::<SnapShot>::empty());
            all.len() as int
        } else {
            let dropped = lemma_sweep_of_chronological_keeps_the_end(earlier, cutoff);
            assert(earlier.skip(dropped).push(all.last()) =~= all.skip(dropped));
            dropped
        }
    }
}

/// Two retention sweeps for the same number of days, run at the same
/// instant, leave what one leaves: the second drops nothing, and where the
/// first fails the second fails too and the store is as it was.
pub proof fn lemma_remove_older_idempotent(all: Seq<SnapShot>, now: Timestamp, days: i64)
    ensures
        after_sweep(after_sweep(all, now, days), now, days) == after_sweep(all, now, days),
{
    if retention_cutoff(now, days) is Some {
        lemma_kept_since_idempotent(all, retention_cutoff(now, days).unwrap());
    }
}

/// A retention sweep never removes a snapshot taken exactly at its cutoff
/// or later.
pub proof fn lemma_remove_older_keeps_recent(
    all: Seq<SnapShot>,
    now: Timestamp,
    days: i64,
    i: int,
)
    requires
        0 <= i < all.len(),
    ensures
        match retention_cutoff(now, days) {
            Some(cutoff) => !all[i].time.is_before(cutoff) ==> after_sweep(
                all,
                now,
                days,
            ).contains(all[i]),
            None => after_sweep(all, now, days) == all,
        },
{
    if retention_cutoff(now, days) is Some {
        let cutoff = retention_cutoff(now, days).unwrap();
        if !all[i].time.is_before(cutoff) {
            lemma_kept_since_keeps_recent(all, cutoff, i);
        }
    }
}

/// An empty file loads as the store without snapshots, tagged with this
/// library's version, whatever is taken to be decoded from it.
pub proof fn lemma_empty_file_loads_empty(decoded: Option<StoreModel>)
    ensures
        loaded(0, decoded) == Ok::<StoreModel, Error>(
            StoreModel { version: CRATE_VERSION@, snapshots: Seq::empty() },
        ),
{
}

/// A store that loads comes back with the snapshots it was stored with, in
/// their order, whatever its tag.
pub proof fn lemma_reload_keeps_snapshots(file_size: u64, stored: StoreModel)
    requires
        file_size != 0,
    ensures
        match loaded(file_size, Some(stored)) {
            Ok(store) => store.snapshots == stored.snapshots,
            Err(error) => error == Error::SemVer && newer_than_current(stored.version) is None,
        },
{
}

/// A store written by this library or by a newer one comes back from a
/// load with its snapshots and tagged with this library's version, whatever
/// tag it was stored under.
pub proof fn lemma_reload_reproduces_store(file_size: u64, stored: StoreModel)
    requires
        file_size != 0,
        newer_than_current(stored.version) is Some,
        newer_than_current(stored.version) == Some(true) || stored.version == CRATE_VERSION@,
    ensures
        loaded(file_size, Some(stored)) == Ok::<StoreModel, Error>(
            StoreModel { version: CRATE_VERSION@, snapshots: stored.snapshots },
        ),
{
}

} // verus!
