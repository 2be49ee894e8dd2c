use sysmon::metrics::{
    cpu_usage, disk_usage, memory_usage, network_throughput, share_of, used_share, DiskSample,
    LoadSample, MemorySample, NetworkSample, Reading, FULL_PERCENT,
};

#[test]
fn share_rounds_to_nearest_millionth() {
    assert_eq!(share_of(1, 3), Reading::Available(33_333_333));
    assert_eq!(share_of(2, 3), Reading::Available(66_666_667));
    assert_eq!(share_of(1, 2), Reading::Available(50_000_000));
}

#[test]
fn share_of_zero_whole_is_unavailable() {
    assert_eq!(share_of(5, 0), Reading::Unavailable);
}

#[test]
fn share_is_clamped_to_full() {
    assert_eq!(share_of(7, 3), Reading::Available(FULL_PERCENT));
    assert_eq!(share_of(u64::MAX, 1), Reading::Available(FULL_PERCENT));
}

#[test]
fn used_share_counts_total_minus_free() {
    assert_eq!(used_share(1000, 250), Reading::Available(75_000_000));
    assert_eq!(used_share(1000, 2000), Reading::Available(0));
    assert_eq!(used_share(0, 0), Reading::Unavailable);
}

#[test]
fn cpu_is_load_per_core() {
    let r = cpu_usage(LoadSample { load_milli: 1_500, cores: 4 });
    assert_eq!(r, Reading::Available(37_500_000));
    let over = cpu_usage(LoadSample { load_milli: 9_000, cores: 2 });
    assert_eq!(over, Reading::Available(FULL_PERCENT));
    assert_eq!(cpu_usage(LoadSample { load_milli: 100, cores: 0 }), Reading::Unavailable);
}

#[test]
fn memory_and_disk_usage() {
    let m = memory_usage(MemorySample { total: 16_000_000, available: 4_000_000 });
    assert_eq!(m, Reading::Available(75_000_000));
    let d = disk_usage(DiskSample { total: 500, free: 1 });
    assert_eq!(d, Reading::Available(99_800_000));
}

#[test]
fn network_rate_in_bytes_per_second() {
    let n = network_throughput(NetworkSample { previous_bytes: 1_000, current_bytes: 3_500, elapsed_ms: 2_000 });
    assert_eq!(n, Reading::Available(1_250_000_000));
    let slow = network_throughput(NetworkSample { previous_bytes: 0, current_bytes: 25, elapsed_ms: 2_000 });
    assert_eq!(slow, Reading::Available(12_500_000));
}

#[test]
fn network_rate_unavailable_cases() {
    let reset = network_throughput(NetworkSample { previous_bytes: 10, current_bytes: 5, elapsed_ms: 1_000 });
    assert_eq!(reset, Reading::Unavailable);
    let instant = network_throughput(NetworkSample { previous_bytes: 0, current_bytes: 5, elapsed_ms: 0 });
    assert_eq!(instant, Reading::Unavailable);
}

#[test]
fn network_rate_saturates() {
    let n = network_throughput(NetworkSample { previous_bytes: 0, current_bytes: u64::MAX, elapsed_ms: 1 });
    assert_eq!(n, Reading::Available(u64::MAX));
}

#[test]
fn unavailable_shows_as_zero() {
    assert_eq!(Reading::Unavailable.value_or_zero(), 0);
    assert_eq!(Reading::Available(42).value_or_zero(), 42);
}
