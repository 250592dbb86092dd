//! The derivation layer: from the stored snapshots to series of
//! (value, time) pairs, one pair per snapshot, in the order of the store.
//!
//! Values are in thousandths of their unit. A value is `None` where it is a
//! quotient by zero: the CPU usage of a snapshot without CPU time, the load
//! of a snapshot without cores.

use crate::database::Database;
use crate::snapshot::{
    busy_total, recv_total, read_total, sent_total, time_total, used_total, written_total,
    LoadAvg, SnapShot,
};
use crate::timestamp::Timestamp;
use crate::units::{
    bytes_to_milli_kib, bytes_to_milli_mib, milli_kib, milli_mib, ratio, saturate, scaled_ratio,
};
use vstd::prelude::*;

verus! {

/// Thousandths of a percent in the whole.
pub const MILLIPERCENT: u64 = 100_000;

/// Percent in the whole.
pub const PERCENT: u64 = 100;

/// A load average as a share of the capacity of `cores` cores, in
/// thousandths of a percent.
pub open spec fn load_share(raw: u64, cores: int) -> Option<u64> {
    scaled_ratio(raw as int, PERCENT as int, cores)
}

/// The three load averages as shares of the capacity of `cpu_count` cores.
pub fn load_avg_percent(load_avgs: LoadAvg, cpu_count: u64) -> (shares: (
    Option<u64>,
    Option<u64>,
    Option<u64>,
))
    ensures
        shares.0 == load_share(load_avgs.one, cpu_count as int),
        shares.1 == load_share(load_avgs.five, cpu_count as int),
        shares.2 == load_share(load_avgs.fifteen, cpu_count as int),
{
    (
        ratio(load_avgs.one, PERCENT, cpu_count),
        ratio(load_avgs.five, PERCENT, cpu_count),
        ratio(load_avgs.fifteen, PERCENT, cpu_count),
    )
}

/// Busy time as a share of total time, in thousandths of a percent.
pub fn cpu_usage_percent(busy_nanos: u64, total_nanos: u64) -> (share: Option<u64>)
    ensures
        share == scaled_ratio(busy_nanos as int, MILLIPERCENT as int, total_nanos as int),
{
    ratio(busy_nanos, MILLIPERCENT, total_nanos)
}

impl SnapShot {
    /// Busy time over total time, summed over the cores.
    pub open spec fn spec_cpu_usage(self) -> Option<u64> {
        scaled_ratio(
            saturate(busy_total(self.cpus@)) as int,
            MILLIPERCENT as int,
            saturate(time_total(self.cpus@)) as int,
        )
    }

    /// The load averages over the number of cores.
    pub open spec fn spec_load(self) -> (Option<u64>, Option<u64>, Option<u64>) {
        (
            load_share(self.load_avgs.one, self.cpus@.len() as int),
            load_share(self.load_avgs.five, self.cpus@.len() as int),
            load_share(self.load_avgs.fifteen, self.cpus@.len() as int),
        )
    }

    /// Received and sent traffic of all interfaces, in MiB.
    pub open spec fn spec_network(self) -> (u64, u64) {
        (
            milli_mib(saturate(recv_total(self.networks@)) as int),
            milli_mib(saturate(sent_total(self.networks@)) as int),
        )
    }

    /// Read and written volume of all partitions, in KiB.
    pub open spec fn spec_disks_speed(self) -> (u64, u64) {
        (
            milli_kib(saturate(read_total(self.disks_io@)) as int),
            milli_kib(saturate(written_total(self.disks_io@)) as int),
        )
    }

    /// The used shares of all partitions, added up.
    pub open spec fn spec_disks_used(self) -> u64 {
        saturate(used_total(self.disks_memory@))
    }

    /// CPU usage of this snapshot, in thousandths of a percent.
    pub fn cpu_usage(&self) -> (share: Option<u64>)
        ensures
            share == self.spec_cpu_usage(),
    {
        let (busy, total) = self.get_cpu_time();
        cpu_usage_percent(busy, total)
    }

    /// Load of this snapshot as shares of its core capacity.
    pub fn load_percent(&self) -> (shares: (Option<u64>, Option<u64>, Option<u64>))
        ensures
            shares == self.spec_load(),
    {
        let (one, five, fifteen) = self.get_load();
        let cores = self.get_cpu_count();
        load_avg_percent(LoadAvg { one, five, fifteen }, cores as u64)
    }

    /// Network traffic of this snapshot, in thousandths of a MiB.
    pub fn network_mib(&self) -> (traffic: (u64, u64))
        ensures
            traffic == self.spec_network(),
    {
        let (recv, sent) = self.get_network_usage();
        (bytes_to_milli_mib(recv), bytes_to_milli_mib(sent))
    }

    /// Disk volume of this snapshot, in whole KiB expressed in thousandths.
    pub fn disks_speed_kib(&self) -> (volume: (u64, u64))
        ensures
            volume == self.spec_disks_speed(),
    {
        let (read, written) = self.get_disk_speed_usage();
        (bytes_to_milli_kib(read), bytes_to_milli_kib(written))
    }
}

impl Database {
    /// CPU usage of each snapshot.
    pub fn get_cpu_usage(&self) -> (series: Vec<(Option<u64>, Timestamp)>)
        ensures
            series@.len() == self.snapshots@.len(),
            forall|i: int|
                0 <= i < series@.len() ==> #[trigger] series@[i] == (
                    self.snapshots@[i].spec_cpu_usage(),
                    self.snapshots@[i].time,
                ),
    {
        let mut series: Vec<(Option<u64>, Timestamp)> = Vec::with_capacity(self.snapshots.len());
        let mut i: usize = 0;
        while i < self.snapshots.len()
            invariant
                i <= self.snapshots.len(),
                series@.len() == i,
                forall|k: int|
                    0 <= k < i ==> #[trigger] series@[k] == (
                        self.snapshots@[k].spec_cpu_usage(),
                        self.snapshots@[k].time,
                    ),
            decreases self.snapshots.len() - i,
        {
            series.push((self.snapshots[i].cpu_usage(), self.snapshots[i].time));
            i += 1;
        }
        series
    }

    /// Used share of RAM and of swap of each snapshot.
    pub fn get_ram_usage(&self) -> (series: Vec<((u64, u64), Timestamp)>)
        ensures
            series@.len() == self.snapshots@.len(),
            forall|i: int|
                0 <= i < series@.len() ==> #[trigger] series@[i] == (
                    (
                        self.snapshots@[i].memory.used_millipercent as u64,
                        self.snapshots@[i].swap.used_millipercent as u64,
                    ),
                    self.snapshots@[i].time,
                ),
    {
        let mut series: Vec<((u64, u64), Timestamp)> = Vec::with_capacity(self.snapshots.len());
        let mut i: usize = 0;
        while i < self.snapshots.len()
            invariant
                i <= self.snapshots.len(),
                series@.len() == i,
                forall|k: int|
                    0 <= k < i ==> #[trigger] series@[k] == (
                        (
                            self.snapshots@[k].memory.used_millipercent as u64,
                            self.snapshots@[k].swap.used_millipercent as u64,
                        ),
                        self.snapshots@[k].time,
                    ),
            decreases self.snapshots.len() - i,
        {
            series.push((self.snapshots[i].get_ram_usage(), self.snapshots[i].time));
            i += 1;
        }
        series
    }

    /// Load of each snapshot, as shares of its core capacity.
    pub fn get_load(&self) -> (series: Vec<((Option<u64>, Option<u64>, Option<u64>), Timestamp)>)
        ensures
            series@.len() == self.snapshots@.len(),
            forall|i: int|
                0 <= i < series@.len() ==> #[trigger] series@[i] == (
                    self.snapshots@[i].spec_load(),
                    self.snapshots@[i].time,
                ),
    {
        let mut series: Vec<((Option<u64>, Option<u64>, Option<u64>), Timestamp)> =
            Vec::with_capacity(self.snapshots.len());
        let mut i: usize = 0;
        while i < self.snapshots.len()
            invariant
                i <= self.snapshots.len(),
                series@.len() == i,
                forall|k: int|
                    0 <= k < i ==> #[trigger] series@[k] == (
                        self.snapshots@[k].spec_load(),
                        self.snapshots@[k].time,
                    ),
            decreases self.snapshots.len() - i,
        {
            series.push((self.snapshots[i].load_percent(), self.snapshots[i].time));
            i += 1;
        }
        series
    }

    /// Received and sent traffic of each snapshot, in MiB.
    pub fn get_network(&self) -> (series: Vec<((u64, u64), Timestamp)>)
        ensures
            series@.len() == self.snapshots@.len(),
            forall|i: int|
                0 <= i < series@.len() ==> #[trigger] series@[i] == (
                    self.snapshots@[i].spec_network(),
                    self.snapshots@[i].time,
                ),
    {
        let mut series: Vec<((u64, u64), Timestamp)> = Vec::with_capacity(self.snapshots.len());
        let mut i: usize = 0;
        while i < self.snapshots.len()
            invariant
                i <= self.snapshots.len(),
                series@.len() == i,
                forall|k: int|
                    0 <= k < i ==> #[trigger] series@[k] == (
                        self.snapshots@[k].spec_network(),
                        self.snapshots@[k].time,
                    ),
            decreases self.snapshots.len() - i,
        {
            series.push((self.snapshots[i].network_mib(), self.snapshots[i].time));
            i += 1;
        }
        series
    }

    /// Read and written volume of each snapshot, in KiB.
    pub fn get_disks_speed_usage(&self) -> (series: Vec<((u64, u64), Timestamp)>)
        ensures
            series@.len() == self.snapshots@.len(),
            forall|i: int|
                0 <= i < series@.len() ==> #[trigger] series@[i] == (
                    self.snapshots@[i].spec_disks_speed(),
                    self.snapshots@[i].time,
                ),
    {
        let mut series: Vec<((u64, u64), Timestamp)> = Vec::with_capacity(self.snapshots.len());
        let mut i: usize = 0;
        while i < self.snapshots.len()
            invariant
                i <= self.snapshots.len(),
                series@.len() == i,
                forall|k: int|
                    0 <= k < i ==> #[trigger] series@[k] == (
                        self.snapshots@[k].spec_disks_speed(),
                        self.snapshots@[k].time,
                    ),
            decreases self.snapshots.len() - i,
        {
            series.push((self.snapshots[i].disks_speed_kib(), self.snapshots[i].time));
            i += 1;
        }
        series
    }

    /// The added-up used shares of the partitions of each snapshot.
    pub fn get_disk_memory_usage(&self) -> (series: Vec<(u64, Timestamp)>)
        ensures
            series@.len() == self.snapshots@.len(),
            forall|i: int|
                0 <= i < series@.len() ==> #[trigger] series@[i] == (
                    self.snapshots@[i].spec_disks_used(),
                    self.snapshots@[i].time,
                ),
    {
        let mut series: Vec<(u64, Timestamp)> = Vec::with_capacity(self.snapshots.len());
        let mut i: usize = 0;
        while i < self.snapshots.len()
            invariant
                i <= self.snapshots.len(),
                series@.len() == i,
                forall|k: int|
                    0 <= k < i ==> #[trigger] series@[k] == (
                        self.snapshots@[k].spec_disks_used(),
                        self.snapshots@[k].time,
                    ),
            decreases self.snapshots.len() - i,
        {
            series.push((self.snapshots[i].get_disks_used_total(), self.snapshots[i].time));
            i += 1;
        }
        series
    }
}

} // verus!
