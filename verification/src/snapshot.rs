//! One reading of every host counter, and the totals computed from it.

use crate::timestamp::Timestamp;
use crate::units::{lemma_saturate_absorbs, saturate, saturating_sum};
use vstd::prelude::*;

verus! {

/// Time one core has spent, in nanoseconds since boot.
#[derive(Clone, Copy, Debug, PartialEq, Eq, Structural)]
pub struct CpuTimes {
    pub busy_nanos: u64,
    pub total_nanos: u64,
}

/// Size and use of one kind of memory (RAM or swap).
#[derive(Clone, Copy, Debug, PartialEq, Eq, Structural)]
pub struct MemoryUsage {
    pub total_bytes: u64,
    /// Used share, in thousandths of a percent.
    pub used_millipercent: u32,
}

/// Cumulative traffic of one network interface.
#[derive(Clone, Copy, Debug, PartialEq, Eq, Structural)]
pub struct NetIo {
    pub bytes_recv: u64,
    pub bytes_sent: u64,
}

/// The traffic of an interface together with the interface's name.
#[derive(Clone, Debug, PartialEq, Eq)]
pub struct NamedNetIo {
    pub name: String,
    pub counters: NetIo,
}

/// Cumulative I/O of one disk partition.
#[derive(Clone, Debug, PartialEq, Eq)]
pub struct DiskIo {
    pub partition: String,
    pub read_bytes: u64,
    pub write_bytes: u64,
}

/// Used capacity of one mounted partition.
#[derive(Clone, Debug, PartialEq, Eq)]
pub struct DiskUsage {
    pub mountpoint: String,
    /// Used share, in thousandths of a percent.
    pub used_millipercent: u32,
}

/// One temperature sensor.
#[derive(Clone, Debug, PartialEq, Eq)]
pub struct Temperature {
    pub label: String,
    /// Thousandths of a degree Celsius.
    pub millidegrees: i64,
}

/// Run-queue lengths averaged over 1, 5 and 15 minutes, in thousandths.
#[derive(Clone, Copy, Debug, PartialEq, Eq, Structural)]
pub struct LoadAvg {
    pub one: u64,
    pub five: u64,
    pub fifteen: u64,
}

/// Everything read from the host at one instant, before any interface is
/// left out.
#[derive(Clone, Debug, PartialEq, Eq)]
pub struct Readings {
    pub cpus: Vec<CpuTimes>,
    pub memory: MemoryUsage,
    pub swap: MemoryUsage,
    pub networks: Vec<NamedNetIo>,
    pub disks_io: Vec<DiskIo>,
    pub disks_memory: Vec<DiskUsage>,
    pub temps: Vec<Temperature>,
    pub load_avgs: LoadAvg,
    pub time: Timestamp,
}

/// One immutable record of a measurement instant.
#[derive(Clone, Debug, PartialEq, Eq)]
pub struct SnapShot {
    pub cpus: Vec<CpuTimes>,
    pub memory: MemoryUsage,
    pub swap: MemoryUsage,
    pub networks: Vec<NetIo>,
    pub disks_io: Vec<DiskIo>,
    pub disks_memory: Vec<DiskUsage>,
    pub temps: Vec<Temperature>,
    pub load_avgs: LoadAvg,
    pub time: Timestamp,
}

/// Whether `name` is one of the `ignored` interface names.
pub open spec fn is_ignored(name: Seq<char>, ignored: Seq<String>) -> bool {
    exists|j: int| 0 <= j < ignored.len() && #[trigger] ignored[j]@ == name
}

/// The counters of the interfaces whose name is not ignored, in order.
pub open spec fn kept_networks(all: Seq<NamedNetIo>, ignored: Seq<String>) -> Seq<NetIo>
    decreases all.len(),
{
    if all.len() == 0 {
        Seq::empty()
    } else if is_ignored(all.last().name@, ignored) {
        kept_networks(all.drop_last(), ignored)
    } else {
        kept_networks(all.drop_last(), ignored).push(all.last().counters)
    }
}

/// Busy time summed over the cores.
pub open spec fn busy_total(cpus: Seq<CpuTimes>) -> int
    decreases cpus.len(),
{
    if cpus.len() == 0 {
        0
    } else {
        busy_total(cpus.drop_last()) + cpus.last().busy_nanos
    }
}

/// Total time summed over the cores.
pub open spec fn time_total(cpus: Seq<CpuTimes>) -> int
    decreases cpus.len(),
{
    if cpus.len() == 0 {
        0
    } else {
        time_total(cpus.drop_last()) + cpus.last().total_nanos
    }
}

/// Bytes received, summed over the interfaces.
pub open spec fn recv_total(nets: Seq<NetIo>) -> int
    decreases nets.len(),
{
    if nets.len() == 0 {
        0
    } else {
        recv_total(nets.drop_last()) + nets.last().bytes_recv
    }
}

/// Bytes sent, summed over the interfaces.
pub open spec fn sent_total(nets: Seq<NetIo>) -> int
    decreases nets.len(),
{
    if nets.len() == 0 {
        0
    } else {
        sent_total(nets.drop_last()) + nets.last().bytes_sent
    }
}

/// Bytes read, summed over the partitions.
pub open spec fn read_total(disks: Seq<DiskIo>) -> int
    decreases disks.len(),
{
    if disks.len() == 0 {
        0
    } else {
        read_total(disks.drop_last()) + disks.last().read_bytes
    }
}

/// Bytes written, summed over the partitions.
pub open spec fn written_total(disks: Seq<DiskIo>) -> int
    decreases disks.len(),
{
    if disks.len() == 0 {
        0
    } else {
        written_total(disks.drop_last()) + disks.last().write_bytes
    }
}

/// Used shares summed over the partitions, in thousandths of a percent.
pub open spec fn used_total(disks: Seq<DiskUsage>) -> int
    decreases disks.len(),
{
    if disks.len() == 0 {
        0
    } else {
        used_total(disks.drop_last()) + disks.last().used_millipercent
    }
}

/// With no name to ignore, every interface is kept.
pub proof fn lemma_nothing_ignored_keeps_all(all: Seq<NamedNetIo>)
    ensures
        kept_networks(all, Seq::empty()).len() == all.len(),
        forall|i: int|
            0 <= i < all.len() ==> #[trigger] kept_networks(all, Seq::empty())[i]
                == all[i].counters,
    decreases all.len(),
{
    if all.len() > 0 {
        lemma_nothing_ignored_keeps_all(all.drop_last());
    }
}

pub proof fn lemma_cpu_totals_nonnegative(cpus: Seq<CpuTimes>)
    ensures
        0 <= busy_total(cpus),
        0 <= time_total(cpus),
    decreases cpus.len(),
{
    if cpus.len() > 0 {
        lemma_cpu_totals_nonnegative(cpus.drop_last());
    }
}

pub proof fn lemma_net_totals_nonnegative(nets: Seq<NetIo>)
    ensures
        0 <= recv_total(nets),
        0 <= sent_total(nets),
    decreases nets.len(),
{
    if nets.len() > 0 {
        lemma_net_totals_nonnegative(nets.drop_last());
    }
}

pub proof fn lemma_disk_totals_nonnegative(disks: Seq<DiskIo>)
    ensures
        0 <= read_total(disks),
        0 <= written_total(disks),
    decreases disks.len(),
{
    if disks.len() > 0 {
        lemma_disk_totals_nonnegative(disks.drop_last());
    }
}

pub proof fn lemma_used_total_nonnegative(disks: Seq<DiskUsage>)
    ensures
        0 <= used_total(disks),
    decreases disks.len(),
{
    if disks.len() > 0 {
        lemma_used_total_nonnegative(disks.drop_last());
    }
}

/// Whether `name` occurs in `ignored`.
pub fn name_is_ignored(name: &String, ignored: &Vec<String>) -> (found: bool)
    ensures
        found == is_ignored(name@, ignored@),
{
    let mut j: usize = 0;
    while j < ignored.len()
        invariant
            j <= ignored.len(),
            forall|k: int| 0 <= k < j ==> (#[trigger] ignored@[k])@ != name@,
        decreases ignored.len() - j,
    {
        if ignored[j] == *name {
            return true;
        }
        j += 1;
    }
    false
}

/// Drops the interfaces named in `ignored` and keeps the counters of the
/// others, in the order in which they were read.
pub fn filter_networks(all: &Vec<NamedNetIo>, ignored: &Vec<String>) -> (kept: Vec<NetIo>)
    ensures
        kept@ == kept_networks(all@, ignored@),
{
    let mut kept: Vec<NetIo> = Vec::new();
    let mut i: usize = 0;
    while i < all.len()
        invariant
            i <= all.len(),
            kept@ == kept_networks(all@.take(i as int), ignored@),
        decreases all.len() - i,
    {
        proof {
            assert(all@.take(i + 1).drop_last() =~= all@.take(i as int));
        }
        if !name_is_ignored(&all[i].name, ignored) {
            kept.push(all[i].counters);
        }
        i += 1;
    }
    proof {
        assert(all@.take(all@.len() as int) =~= all@);
    }
    kept
}

impl SnapShot {
    /// The snapshot made of `readings`, without the interfaces named in
    /// `networks_to_ignore`.
    pub fn new(readings: Readings, networks_to_ignore: &Vec<String>) -> (snap: SnapShot)
        ensures
            snap.cpus == readings.cpus,
            snap.memory == readings.memory,
            snap.swap == readings.swap,
            snap.networks@ == kept_networks(readings.networks@, networks_to_ignore@),
            snap.disks_io == readings.disks_io,
            snap.disks_memory == readings.disks_memory,
            snap.temps == readings.temps,
            snap.load_avgs == readings.load_avgs,
            snap.time == readings.time,
    {
        let networks = filter_networks(&readings.networks, networks_to_ignore);
        SnapShot {
            cpus: readings.cpus,
            memory: readings.memory,
            swap: readings.swap,
            networks,
            disks_io: readings.disks_io,
            disks_memory: readings.disks_memory,
            temps: readings.temps,
            load_avgs: readings.load_avgs,
            time: readings.time,
        }
    }

    /// The snapshot made of `readings` with every interface kept.
    pub fn try_default(readings: Readings) -> (snap: SnapShot)
        ensures
            snap.cpus == readings.cpus,
            snap.memory == readings.memory,
            snap.swap == readings.swap,
            snap.networks@.len() == readings.networks@.len(),
            forall|i: int|
                0 <= i < readings.networks@.len() ==> #[trigger] snap.networks@[i]
                    == readings.networks@[i].counters,
            snap.disks_io == readings.disks_io,
            snap.disks_memory == readings.disks_memory,
            snap.temps == readings.temps,
            snap.load_avgs == readings.load_avgs,
            snap.time == readings.time,
    {
        let none: Vec<String> = Vec::new();
        proof {
            lemma_nothing_ignored_keeps_all(readings.networks@);
            assert(none@ =~= Seq::<String>::empty());
        }
        SnapShot::new(readings, &none)
    }

    /// Number of cores.
    pub fn get_cpu_count(&self) -> (count: usize)
        ensures
            count == self.cpus@.len(),
    {
        self.cpus.len()
    }

    /// Busy and total time over all cores, in nanoseconds.
    pub fn get_cpu_time(&self) -> (times: (u64, u64))
        ensures
            times.0 == saturate(busy_total(self.cpus@)),
            times.1 == saturate(time_total(self.cpus@)),
    {
        let mut busy: u64 = 0;
        let mut total: u64 = 0;
        let mut i: usize = 0;
        while i < self.cpus.len()
            invariant
                i <= self.cpus.len(),
                busy == saturate(busy_total(self.cpus@.take(i as int))),
                total == saturate(time_total(self.cpus@.take(i as int))),
            decreases self.cpus.len() - i,
        {
            proof {
                let seen = self.cpus@.take(i as int);
                assert(self.cpus@.take(i + 1).drop_last() =~= seen);
                lemma_cpu_totals_nonnegative(seen);
                lemma_saturate_absorbs(busy_total(seen), self.cpus@[i as int].busy_nanos as int);
                lemma_saturate_absorbs(time_total(seen), self.cpus@[i as int].total_nanos as int);
            }
            busy = saturating_sum(busy, self.cpus[i].busy_nanos);
            total = saturating_sum(total, self.cpus[i].total_nanos);
            i += 1;
        }
        proof {
            assert(self.cpus@.take(self.cpus@.len() as int) =~= self.cpus@);
        }
        (busy, total)
    }

    /// Used share of RAM and of swap, in thousandths of a percent.
    pub fn get_ram_usage(&self) -> (usage: (u64, u64))
        ensures
            usage.0 == self.memory.used_millipercent,
            usage.1 == self.swap.used_millipercent,
    {
        (self.memory.used_millipercent as u64, self.swap.used_millipercent as u64)
    }

    /// The three load averages, in thousandths.
    pub fn get_load(&self) -> (load: (u64, u64, u64))
        ensures
            load.0 == self.load_avgs.one,
            load.1 == self.load_avgs.five,
            load.2 == self.load_avgs.fifteen,
    {
        (self.load_avgs.one, self.load_avgs.five, self.load_avgs.fifteen)
    }

    /// Bytes received and sent over all interfaces.
    pub fn get_network_usage(&self) -> (bytes: (u64, u64))
        ensures
            bytes.0 == saturate(recv_total(self.networks@)),
            bytes.1 == saturate(sent_total(self.networks@)),
    {
        let mut recv: u64 = 0;
        let mut sent: u64 = 0;
        let mut i: usize = 0;
        while i < self.networks.len()
            invariant
                i <= self.networks.len(),
                recv == saturate(recv_total(self.networks@.take(i as int))),
                sent == saturate(sent_total(self.networks@.take(i as int))),
            decreases self.networks.len() - i,
        {
            proof {
                let seen = self.networks@.take(i as int);
                assert(self.networks@.take(i + 1).drop_last() =~= seen);
                lemma_net_totals_nonnegative(seen);
                lemma_saturate_absorbs(recv_total(seen), self.networks@[i as int].bytes_recv as int);
                lemma_saturate_absorbs(sent_total(seen), self.networks@[i as int].bytes_sent as int);
            }
            recv = saturating_sum(recv, self.networks[i].bytes_recv);
            sent = saturating_sum(sent, self.networks[i].bytes_sent);
            i += 1;
        }
        proof {
            assert(self.networks@.take(self.networks@.len() as int) =~= self.networks@);
        }
        (recv, sent)
    }

    /// Bytes read and written over all partitions.
    pub fn get_disk_speed_usage(&self) -> (bytes: (u64, u64))
        ensures
            bytes.0 == saturate(read_total(self.disks_io@)),
            bytes.1 == saturate(written_total(self.disks_io@)),
    {
        let mut read: u64 = 0;
        let mut written: u64 = 0;
        let mut i: usize = 0;
        while i < self.disks_io.len()
            invariant
                i <= self.disks_io.len(),
                read == saturate(read_total(self.disks_io@.take(i as int))),
                written == saturate(written_total(self.disks_io@.take(i as int))),
            decreases self.disks_io.len() - i,
        {
            proof {
                let seen = self.disks_io@.take(i as int);
                assert(self.disks_io@.take(i + 1).drop_last() =~= seen);
                lemma_disk_totals_nonnegative(seen);
                lemma_saturate_absorbs(read_total(seen), self.disks_io@[i as int].read_bytes as int);
                lemma_saturate_absorbs(
                    written_total(seen),
                    self.disks_io@[i as int].write_bytes as int,
                );
            }
            read = saturating_sum(read, self.disks_io[i].read_bytes);
            written = saturating_sum(written, self.disks_io[i].write_bytes);
            i += 1;
        }
        proof {
            assert(self.disks_io@.take(self.disks_io@.len() as int) =~= self.disks_io@);
        }
        (read, written)
    }

    /// Each mounted partition with its used share, in thousandths of a
    /// percent.
    pub fn get_disks_size_usage(&self) -> (usage: Vec<(String, u64)>)
        ensures
            usage@.len() == self.disks_memory@.len(),
            forall|i: int|
                0 <= i < usage@.len() ==> (#[trigger] usage@[i]).0@
                    == self.disks_memory@[i].mountpoint@ && usage@[i].1
                    == self.disks_memory@[i].used_millipercent,
    {
        let mut usage: Vec<(String, u64)> = Vec::new();
        let mut i: usize = 0;
        while i < self.disks_memory.len()
            invariant
                i <= self.disks_memory.len(),
                usage@.len() == i,
                forall|k: int|
                    0 <= k < i ==> (#[trigger] usage@[k]).0@ == self.disks_memory@[k].mountpoint@
                        && usage@[k].1 == self.disks_memory@[k].used_millipercent,
            decreases self.disks_memory.len() - i,
        {
            let name = self.disks_memory[i].mountpoint.clone();
            usage.push((name, self.disks_memory[i].used_millipercent as u64));
            i += 1;
        }
        usage
    }

    /// Used shares summed over all partitions, in thousandths of a percent.
    pub fn get_disks_used_total(&self) -> (sum: u64)
        ensures
            sum == saturate(used_total(self.disks_memory@)),
    {
        let mut sum: u64 = 0;
        let mut i: usize = 0;
        while i < self.disks_memory.len()
            invariant
                i <= self.disks_memory.len(),
                sum == saturate(used_total(self.disks_memory@.take(i as int))),
            decreases self.disks_memory.len() - i,
        {
            proof {
                let seen = self.disks_memory@.take(i as int);
                assert(self.disks_memory@.take(i + 1).drop_last() =~= seen);
                lemma_used_total_nonnegative(seen);
                lemma_saturate_absorbs(
                    used_total(seen),
                    self.disks_memory@[i as int].used_millipercent as int,
                );
            }
            sum = saturating_sum(sum, self.disks_memory[i].used_millipercent as u64);
            i += 1;
        }
        proof {
            assert(self.disks_memory@.take(self.disks_memory@.len() as int) =~= self.disks_memory@);
        }
        sum
    }
}

} // verus!
