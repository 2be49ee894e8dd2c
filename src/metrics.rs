//! Resource readings in fixed point: every value is held in millionths of its
//! unit, so `3.14159` is `3_141_590`.
use vstd::prelude::*;

verus! {

/// Millionths per unit.
pub const SCALE: u64 = 1000000;

/// One hundred percent, in millionths of a percent.
pub const FULL_PERCENT: u64 = 100000000;

/// Division of `n` by `d`, rounded to nearest, halves rounded up.
pub open spec fn rounded_div(n: nat, d: nat) -> nat
    recommends
        d > 0,
{
    (2 * n + d) / (2 * d)
}

/// The share `part / whole` as a percentage in millionths, clamped to 100%.
pub open spec fn share_micro(part: nat, whole: nat) -> nat {
    let r = rounded_div((part * FULL_PERCENT) as nat, whole);
    if r > FULL_PERCENT as nat {
        FULL_PERCENT as nat
    } else {
        r
    }
}

/// A single metric: a value in millionths, or the mark that its probe failed.
#[derive(Clone, Copy, Debug, PartialEq, Eq, Structural)]
pub enum Reading {
    Available(u64),
    Unavailable,
}

impl Reading {
    /// The value shown for this reading: a failed probe shows as zero.
    pub open spec fn shown(self) -> nat {
        match self {
            Reading::Available(v) => v as nat,
            Reading::Unavailable => 0,
        }
    }

    pub fn value_or_zero(&self) -> (r: u64)
        ensures
            r as nat == self.shown(),
    {
        match self {
            Reading::Available(v) => *v,
            Reading::Unavailable => 0,
        }
    }

    /// A percentage reading lies within [0, 100%].
    pub open spec fn is_percentage(self) -> bool {
        self.shown() <= FULL_PERCENT
    }
}

/// What `share_of(part, whole)` yields.
pub open spec fn share_reading(part: nat, whole: nat) -> Reading {
    if whole == 0 {
        Reading::Unavailable
    } else {
        Reading::Available(share_micro(part, whole) as u64)
    }
}

/// `part` as a share of `whole`, in millionths of a percent, rounded to
/// nearest and clamped to 100%; unavailable when `whole` is zero.
pub fn share_of(part: u64, whole: u64) -> (r: Reading)
    ensures
        r == share_reading(part as nat, whole as nat),
        r.is_percentage(),
{
    if whole == 0 {
        return Reading::Unavailable;
    }
    proof {
        assert(part as int * FULL_PERCENT <= u64::MAX as int * FULL_PERCENT) by (nonlinear_arith)
            requires
                part <= u64::MAX,
        ;
    }
    let n: u128 = (part as u128) * (FULL_PERCENT as u128);
    let d: u128 = whole as u128;
    let q: u128 = (2 * n + d) / (2 * d);
    if q > FULL_PERCENT as u128 {
        Reading::Available(FULL_PERCENT)
    } else {
        Reading::Available(q as u64)
    }
}

/// What `used_share(total, free)` yields.
pub open spec fn used_reading(total: nat, free: nat) -> Reading {
    let used: nat = if free <= total { (total - free) as nat } else { 0 };
    share_reading(used, total)
}

/// The used part of a capacity as a percentage: `total - free` over `total`.
/// A `free` above `total` counts as nothing used.
pub fn used_share(total: u64, free: u64) -> (r: Reading)
    ensures
        r == used_reading(total as nat, free as nat),
        r.is_percentage(),
{
    let used: u64 = if free <= total { total - free } else { 0 };
    share_of(used, total)
}

/// CPU load over the number of cores, in thousandths of a runnable task.
#[derive(Clone, Copy, Debug, PartialEq, Eq, Structural)]
pub struct LoadSample {
    pub load_milli: u64,
    pub cores: u32,
}

/// Memory counters, in kilobytes.
#[derive(Clone, Copy, Debug, PartialEq, Eq, Structural)]
pub struct MemorySample {
    pub total: u64,
    pub available: u64,
}

/// Capacity of the reported filesystem, in kilobytes.
#[derive(Clone, Copy, Debug, PartialEq, Eq, Structural)]
pub struct DiskSample {
    pub total: u64,
    pub free: u64,
}

/// Received-bytes counter at two instants, and the milliseconds between them.
#[derive(Clone, Copy, Debug, PartialEq, Eq, Structural)]
pub struct NetworkSample {
    pub previous_bytes: u64,
    pub current_bytes: u64,
    pub elapsed_ms: u64,
}

/// CPU utilisation: the load per core as a percentage, clamped to 100%.
pub open spec fn cpu_reading(s: LoadSample) -> Reading {
    share_reading(s.load_milli as nat, s.cores as nat * 1000)
}

pub fn cpu_usage(s: LoadSample) -> (r: Reading)
    ensures
        r == cpu_reading(s),
        r.is_percentage(),
{
    share_of(s.load_milli, (s.cores as u64) * 1000)
}

pub open spec fn memory_reading(s: MemorySample) -> Reading {
    used_reading(s.total as nat, s.available as nat)
}

pub fn memory_usage(s: MemorySample) -> (r: Reading)
    ensures
        r == memory_reading(s),
        r.is_percentage(),
{
    used_share(s.total, s.available)
}

pub open spec fn disk_reading(s: DiskSample) -> Reading {
    used_reading(s.total as nat, s.free as nat)
}

pub fn disk_usage(s: DiskSample) -> (r: Reading)
    ensures
        r == disk_reading(s),
        r.is_percentage(),
{
    used_share(s.total, s.free)
}

/// Received throughput in bytes per second, held in millionths: the bytes
/// counted between the two instants over the time between them. Unavailable
/// when no time passed or the counter went backwards (a reset); a rate above
/// the largest `u64` is held at that bound.
pub open spec fn network_reading(s: NetworkSample) -> Reading {
    if s.elapsed_ms == 0 || s.current_bytes < s.previous_bytes {
        Reading::Unavailable
    } else {
        let r = rounded_div(((s.current_bytes - s.previous_bytes) * 1000 * SCALE) as nat, s.elapsed_ms as nat);
        Reading::Available(if r > u64::MAX { u64::MAX } else { r as u64 })
    }
}

pub fn network_throughput(s: NetworkSample) -> (r: Reading)
    ensures
        r == network_reading(s),
{
    if s.elapsed_ms == 0 || s.current_bytes < s.previous_bytes {
        return Reading::Unavailable;
    }
    let delta: u128 = (s.current_bytes - s.previous_bytes) as u128;
    proof {
        assert(delta * 1000 * SCALE <= u64::MAX as int * 1000 * SCALE) by (nonlinear_arith)
            requires
                delta <= u64::MAX,
        ;
    }
    let n: u128 = delta * 1000 * (SCALE as u128);
    let d: u128 = s.elapsed_ms as u128;
    let q: u128 = (2 * n + d) / (2 * d);
    if q > u64::MAX as u128 {
        Reading::Available(u64::MAX)
    } else {
        Reading::Available(q as u64)
    }
}

} // verus!
