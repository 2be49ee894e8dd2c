use sysmon::schedule::{DashboardLoop, Phase, StopReason, TickAction, TickEnd};

const P: u64 = 1_000;

#[test]
fn first_tick_samples_and_next_is_one_period_later() {
    let mut l = DashboardLoop::new(P, 5_000);
    assert_eq!(l.begin_tick(false), TickAction::Sample);
    assert_eq!(l.phase, Phase::InTick);
    assert_eq!(l.finish_tick(true, 5_120), TickEnd::NextAt(6_000));
    assert_eq!(l.phase, Phase::Waiting);
    assert_eq!(l.ticks, 1);
}

#[test]
fn no_drift_over_hundred_ticks() {
    let start: u64 = 10_000;
    let mut l = DashboardLoop::new(P, start);
    let mut now = start;
    let mut seed: u64 = 12_345;
    for k in 0..100u64 {
        assert!(now.abs_diff(start + k * P) <= 1, "tick {} began at {}", k, now);
        assert_eq!(l.begin_tick(false), TickAction::Sample);
        seed = seed.wrapping_mul(6_364_136_223_846_793_005).wrapping_add(1_442_695_040_888_963_407);
        let work = (seed >> 33) % (P / 2 + 1);
        match l.finish_tick(true, now + work) {
            TickEnd::NextAt(d) => {
                assert_eq!(d, start + (k + 1) * P);
                now = d;
            }
            TickEnd::Stop(r) => panic!("stopped: {:?}", r),
        }
    }
}

#[test]
fn cancellation_stops_at_next_boundary() {
    let n: u64 = 3;
    let mut l = DashboardLoop::new(P, 0);
    let mut renders: u64 = 0;
    let mut cancelled = false;
    let mut now: u64 = 0;
    for boundary in 0..10u64 {
        match l.begin_tick(cancelled) {
            TickAction::Sample => {
                renders += 1;
                if renders == n {
                    cancelled = true;
                }
                match l.finish_tick(true, now + 10) {
                    TickEnd::NextAt(d) => now = d,
                    TickEnd::Stop(_) => panic!("unexpected stop"),
                }
            }
            TickAction::Stop(r) => {
                assert_eq!(r, StopReason::Cancelled);
                assert_eq!(boundary, n);
                break;
            }
        }
    }
    assert!(renders <= n + 1);
    assert_eq!(l.phase, Phase::Stopped(StopReason::Cancelled));
    assert_eq!(l.begin_tick(false), TickAction::Stop(StopReason::Cancelled));
    assert_eq!(l.ticks, n);
}

#[test]
fn cancellation_before_first_tick() {
    let mut l = DashboardLoop::new(P, 0);
    assert_eq!(l.begin_tick(true), TickAction::Stop(StopReason::Cancelled));
    assert_eq!(l.ticks, 0);
}

#[test]
fn render_error_ends_loop() {
    let mut l = DashboardLoop::new(P, 0);
    let mut samples: u64 = 0;
    let k: u64 = 4;
    let mut now: u64 = 0;
    loop {
        match l.begin_tick(false) {
            TickAction::Sample => {
                samples += 1;
                match l.finish_tick(samples != k, now + 5) {
                    TickEnd::NextAt(d) => now = d,
                    TickEnd::Stop(r) => assert_eq!(r, StopReason::RenderError),
                }
            }
            TickAction::Stop(r) => {
                assert_eq!(r, StopReason::RenderError);
                break;
            }
        }
    }
    assert_eq!(samples, k);
    assert_eq!(l.phase, Phase::Stopped(StopReason::RenderError));
    assert_eq!(l.begin_tick(true), TickAction::Stop(StopReason::RenderError));
    assert_eq!(l.ticks, k);
}

#[test]
fn overrunning_tick_defers_next() {
    let mut l = DashboardLoop::new(P, 0);
    assert_eq!(l.begin_tick(false), TickAction::Sample);
    assert_eq!(l.finish_tick(true, 2_500), TickEnd::NextAt(2_500));
    assert_eq!(l.begin_tick(false), TickAction::Sample);
    assert_eq!(l.finish_tick(true, 2_600), TickEnd::NextAt(2_600));
    assert_eq!(l.begin_tick(false), TickAction::Sample);
    assert_eq!(l.finish_tick(true, 2_700), TickEnd::NextAt(3_000));
}

#[test]
fn deadline_is_capped_at_largest_instant() {
    let mut l = DashboardLoop::new(u64::MAX, u64::MAX - 1);
    assert_eq!(l.begin_tick(false), TickAction::Sample);
    assert_eq!(l.finish_tick(true, 0), TickEnd::NextAt(u64::MAX));
}
