//! Comparison of one fresh reading with the configured limits.

use vstd::prelude::*;

verus! {

/// Thousandths of a percent in one percent.
pub const MILLIPERCENT_PER_PERCENT: u64 = 1000;

/// One fresh reading of the host, every field in thousandths of a percent.
#[derive(Clone, Copy, Debug, PartialEq, Eq, Structural)]
pub struct PercentSnapshot {
    pub cpu: u64,
    pub ram: u64,
    pub swap: u64,
    /// The mean of `ram` and `swap`.
    pub memory: u64,
    pub disk: u64,
    pub avg_load: u64,
}

/// The configured limits, in whole percent; `None` switches a limit off.
#[derive(Clone, Copy, Debug, PartialEq, Eq, Structural)]
pub struct Thresholds {
    pub cpu: Option<u32>,
    pub ram: Option<u32>,
    pub swap: Option<u32>,
    pub memory: Option<u32>,
    pub disk: Option<u32>,
    pub avg_load: Option<u32>,
}

/// Which limits a reading has crossed.
#[derive(Clone, Copy, Debug, PartialEq, Eq, Structural)]
pub struct Crossed {
    pub cpu: bool,
    pub ram: bool,
    pub swap: bool,
    pub memory: bool,
    pub disk: bool,
    pub avg_load: bool,
}

/// A limit is crossed by a value strictly above it.
pub open spec fn crosses(threshold: Option<u32>, observed_millipercent: u64) -> bool {
    match threshold {
        Some(limit) => observed_millipercent > limit * MILLIPERCENT_PER_PERCENT,
        None => false,
    }
}

/// The mean of two shares, rounded down.
pub open spec fn mean(a: u64, b: u64) -> u64 {
    ((a + b) / 2) as u64
}

/// Whether `observed_millipercent` lies strictly above `threshold`.
pub fn is_threshold_crossed(threshold: Option<u32>, observed_millipercent: u64) -> (crossed: bool)
    ensures
        crossed == crosses(threshold, observed_millipercent),
{
    match threshold {
        Some(limit) => {
            let limit_milli: u64 = (limit as u64) * MILLIPERCENT_PER_PERCENT;
            observed_millipercent > limit_milli
        },
        None => false,
    }
}

impl PercentSnapshot {
    /// The reading with its memory share computed as the mean of RAM and
    /// swap.
    pub fn new(cpu: u64, ram: u64, swap: u64, disk: u64, avg_load: u64) -> (snap: PercentSnapshot)
        ensures
            snap == (PercentSnapshot { cpu, ram, swap, memory: mean(ram, swap), disk, avg_load }),
    {
        let memory: u64 = ram / 2 + swap / 2 + (ram % 2 + swap % 2) / 2;
        PercentSnapshot { cpu, ram, swap, memory, disk, avg_load }
    }
}

impl Crossed {
    /// Whether at least one limit is crossed.
    pub open spec fn spec_any(self) -> bool {
        self.cpu || self.ram || self.swap || self.memory || self.disk || self.avg_load
    }

    /// Whether at least one limit is crossed.
    pub fn any(&self) -> (r: bool)
        ensures
            r == self.spec_any(),
    {
        self.cpu || self.ram || self.swap || self.memory || self.disk || self.avg_load
    }
}

impl Thresholds {
    /// Compares each field of `observed` with its limit.
    pub fn evaluate(&self, observed: &PercentSnapshot) -> (crossed: Crossed)
        ensures
            crossed.cpu == crosses(self.cpu, observed.cpu),
            crossed.ram == crosses(self.ram, observed.ram),
            crossed.swap == crosses(self.swap, observed.swap),
            crossed.memory == crosses(self.memory, observed.memory),
            crossed.disk == crosses(self.disk, observed.disk),
            crossed.avg_load == crosses(self.avg_load, observed.avg_load),
    {
        Crossed {
            cpu: is_threshold_crossed(self.cpu, observed.cpu),
            ram: is_threshold_crossed(self.ram, observed.ram),
            swap: is_threshold_crossed(self.swap, observed.swap),
            memory: is_threshold_crossed(self.memory, observed.memory),
            disk: is_threshold_crossed(self.disk, observed.disk),
            avg_load: is_threshold_crossed(self.avg_load, observed.avg_load),
        }
    }
}

} // verus!
