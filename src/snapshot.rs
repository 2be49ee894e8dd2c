//! One snapshot of the host's resources, assembled from the raw readings of
//! four independent probes.
use vstd::prelude::*;
use crate::metrics::{
    cpu_reading, cpu_usage, disk_reading, disk_usage, memory_reading, memory_usage,
    network_reading, network_throughput, DiskSample, LoadSample, MemorySample, NetworkSample,
    Reading,
};

verus! {

/// What each probe returned on one tick; `None` where the probe failed.
#[derive(Clone, Copy, Debug, PartialEq, Eq, Structural)]
pub struct SensorReadings {
    pub load: Option<LoadSample>,
    pub memory: Option<MemorySample>,
    pub disk: Option<DiskSample>,
    pub network: Option<NetworkSample>,
}

/// The four metrics of one tick. CPU, memory and disk are percentages in
/// millionths of a percent; network is received bytes per second in
/// millionths.
#[derive(Clone, Copy, Debug, PartialEq, Eq, Structural)]
pub struct ResourceSnapshot {
    pub cpu: Reading,
    pub memory: Reading,
    pub disk: Reading,
    pub network: Reading,
}

/// The four probes of a snapshot.
#[derive(Clone, Copy, Debug, PartialEq, Eq, Structural)]
pub enum Probe {
    Cpu,
    Memory,
    Disk,
    Network,
}

impl ResourceSnapshot {
    /// The three percentage fields lie within [0, 100%].
    pub open spec fn wf(self) -> bool {
        self.cpu.is_percentage() && self.memory.is_percentage() && self.disk.is_percentage()
    }

    pub open spec fn field(self, p: Probe) -> Reading {
        match p {
            Probe::Cpu => self.cpu,
            Probe::Memory => self.memory,
            Probe::Disk => self.disk,
            Probe::Network => self.network,
        }
    }
}

pub open spec fn option_reading<T>(o: Option<T>, f: spec_fn(T) -> Reading) -> Reading {
    match o {
        Some(v) => f(v),
        None => Reading::Unavailable,
    }
}

/// The snapshot that a set of readings gives: each field depends on its own
/// probe alone, and a failed probe leaves its field unavailable.
pub open spec fn snapshot_of(r: SensorReadings) -> ResourceSnapshot {
    ResourceSnapshot {
        cpu: option_reading(r.load, |s: LoadSample| cpu_reading(s)),
        memory: option_reading(r.memory, |s: MemorySample| memory_reading(s)),
        disk: option_reading(r.disk, |s: DiskSample| disk_reading(s)),
        network: option_reading(r.network, |s: NetworkSample| network_reading(s)),
    }
}

/// The readings with one probe marked as failed.
pub open spec fn with_failed(r: SensorReadings, p: Probe) -> SensorReadings {
    match p {
        Probe::Cpu => SensorReadings { load: None, ..r },
        Probe::Memory => SensorReadings { memory: None, ..r },
        Probe::Disk => SensorReadings { disk: None, ..r },
        Probe::Network => SensorReadings { network: None, ..r },
    }
}

/// Builds the snapshot of one tick. Never fails: a failed probe makes its
/// own field unavailable and leaves the others as they are.
pub fn sample(r: &SensorReadings) -> (s: ResourceSnapshot)
    ensures
        s == snapshot_of(*r),
        s.wf(),
{
    let cpu = match r.load {
        Some(l) => cpu_usage(l),
        None => Reading::Unavailable,
    };
    let memory = match r.memory {
        Some(m) => memory_usage(m),
        None => Reading::Unavailable,
    };
    let disk = match r.disk {
        Some(d) => disk_usage(d),
        None => Reading::Unavailable,
    };
    let network = match r.network {
        Some(n) => network_throughput(n),
        None => Reading::Unavailable,
    };
    ResourceSnapshot { cpu, memory, disk, network }
}

/// Every snapshot built from readings keeps its percentages within [0, 100%].
pub proof fn lemma_snapshot_percentages_bounded(r: SensorReadings)
    ensures
        snapshot_of(r).wf(),
{
}

/// A failed probe changes its own field only: that field becomes unavailable
/// (shown as zero), and every other field keeps the value it had.
pub proof fn lemma_failed_probe_isolated(r: SensorReadings, p: Probe)
    ensures
        snapshot_of(with_failed(r, p)).field(p) == Reading::Unavailable,
        snapshot_of(with_failed(r, p)).field(p).shown() == 0,
        forall|q: Probe| q != p ==> #[trigger] snapshot_of(with_failed(r, p)).field(q) == snapshot_of(r).field(q),
{
}

} // verus!
