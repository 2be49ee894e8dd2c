//! The decisions of the refresh loop. The caller runs the loop: at each tick
//! boundary it reports whether cancellation was requested, samples and
//! renders when told to, reports how rendering went and when it ended, and
//! waits until the deadline it is handed.
use vstd::prelude::*;

verus! {

/// Why the loop stopped.
#[derive(Clone, Copy, Debug, PartialEq, Eq, Structural)]
pub enum StopReason {
    Cancelled,
    RenderError,
}

#[derive(Clone, Copy, Debug, PartialEq, Eq, Structural)]
pub enum Phase {
    /// Between ticks, waiting for the next boundary.
    Waiting,
    /// A tick has begun and its frame has not been rendered yet.
    InTick,
    Stopped(StopReason),
}

/// What to do at a tick boundary.
#[derive(Clone, Copy, Debug, PartialEq, Eq, Structural)]
pub enum TickAction {
    /// Take a snapshot, render it, then call `finish_tick`.
    Sample,
    Stop(StopReason),
}

/// How a tick ends.
#[derive(Clone, Copy, Debug, PartialEq, Eq, Structural)]
pub enum TickEnd {
    /// Wait until this instant (milliseconds), then begin the next tick.
    NextAt(u64),
    Stop(StopReason),
}

/// The refresh loop: a fixed period, the instant it started, the number of
/// ticks begun so far, and its phase. Times are in milliseconds.
#[derive(Clone, Copy, Debug, PartialEq, Eq, Structural)]
pub struct DashboardLoop {
    pub period_ms: u64,
    pub start_ms: u64,
    pub ticks: u64,
    pub phase: Phase,
}

/// What happens at one tick boundary of a simulated run.
#[derive(Clone, Copy, Debug, PartialEq, Eq, Structural)]
pub struct TickInput {
    /// Whether cancellation had been requested when the boundary came.
    pub cancelled: bool,
    /// Whether the render sink accepted the frame.
    pub render_ok: bool,
    /// When rendering ended.
    pub now_ms: u64,
}

pub open spec fn is_stopped(p: Phase) -> bool {
    p is Stopped
}

impl DashboardLoop {
    /// Tick `k` (counting from zero) is due at `start + k * period`.
    pub open spec fn due(self, k: nat) -> int {
        self.start_ms + k * self.period_ms
    }

    /// The instant to wait for once the current tick has rendered at `now`:
    /// the boundary of the next tick on the fixed grid, held at the largest
    /// representable instant, but never earlier than `now` (an overrunning
    /// tick defers the next one instead of overlapping it).
    pub open spec fn next_deadline(self, now: nat) -> nat {
        let d = self.due(self.ticks as nat);
        let capped: nat = if d > u64::MAX { u64::MAX as nat } else { d as nat };
        if capped < now { now } else { capped }
    }

    pub open spec fn begin_spec(self, cancelled: bool) -> (DashboardLoop, TickAction) {
        match self.phase {
            Phase::Stopped(r) => (self, TickAction::Stop(r)),
            _ => if cancelled {
                (DashboardLoop { phase: Phase::Stopped(StopReason::Cancelled), ..self }, TickAction::Stop(StopReason::Cancelled))
            } else {
                (DashboardLoop { phase: Phase::InTick, ticks: (self.ticks + 1) as u64, ..self }, TickAction::Sample)
            },
        }
    }

    pub open spec fn finish_spec(self, render_ok: bool, now: nat) -> (DashboardLoop, TickEnd) {
        if !render_ok {
            (DashboardLoop { phase: Phase::Stopped(StopReason::RenderError), ..self }, TickEnd::Stop(StopReason::RenderError))
        } else {
            (DashboardLoop { phase: Phase::Waiting, ..self }, TickEnd::NextAt(self.next_deadline(now) as u64))
        }
    }

    /// A new loop, started at `start_ms`, whose first tick is due at once.
    pub fn new(period_ms: u64, start_ms: u64) -> (r: DashboardLoop)
        ensures
            r == (DashboardLoop { period_ms, start_ms, ticks: 0, phase: Phase::Waiting }),
    {
        DashboardLoop { period_ms, start_ms, ticks: 0, phase: Phase::Waiting }
    }

    /// Called at a tick boundary. A stopped loop stays stopped; a requested
    /// cancellation stops it; otherwise a new tick begins.
    pub fn begin_tick(&mut self, cancelled: bool) -> (a: TickAction)
        requires
            old(self).phase != Phase::InTick,
            old(self).ticks < u64::MAX,
        ensures
            (*final(self), a) == old(self).begin_spec(cancelled),
    {
        match self.phase {
            Phase::Stopped(r) => TickAction::Stop(r),
            _ => {
                if cancelled {
                    self.phase = Phase::Stopped(StopReason::Cancelled);
                    TickAction::Stop(StopReason::Cancelled)
                } else {
                    self.phase = Phase::InTick;
                    self.ticks = self.ticks + 1;
                    TickAction::Sample
                }
            },
        }
    }

    /// Called once the frame of the current tick was handed to the render
    /// sink, with whether it was accepted and when rendering ended. A render
    /// error stops the loop; otherwise the deadline of the next tick is given.
    pub fn finish_tick(&mut self, render_ok: bool, now_ms: u64) -> (e: TickEnd)
        requires
            old(self).phase == Phase::InTick,
        ensures
            (*final(self), e) == old(self).finish_spec(render_ok, now_ms as nat),
            e matches TickEnd::NextAt(d) ==> d >= now_ms,
    {
        if !render_ok {
            self.phase = Phase::Stopped(StopReason::RenderError);
            return TickEnd::Stop(StopReason::RenderError);
        }
        self.phase = Phase::Waiting;
        proof {
            assert((self.ticks as int) * (self.period_ms as int) <= u64::MAX as int * u64::MAX as int) by (nonlinear_arith)
                requires
                    self.ticks <= u64::MAX,
                    self.period_ms <= u64::MAX,
            ;
        }
        let d: u128 = (self.start_ms as u128) + (self.ticks as u128) * (self.period_ms as u128);
        let capped: u64 = if d > u64::MAX as u128 { u64::MAX } else { d as u64 };
        let next: u64 = if capped < now_ms { now_ms } else { capped };
        TickEnd::NextAt(next)
    }
}

/// The state after one boundary of a simulated run: begin the tick, and if
/// it samples, finish it as the input says.
pub open spec fn step(s: DashboardLoop, t: TickInput) -> DashboardLoop {
    let (b, a) = s.begin_spec(t.cancelled);
    match a {
        TickAction::Sample => b.finish_spec(t.render_ok, t.now_ms as nat).0,
        TickAction::Stop(_) => b,
    }
}

/// The state after a run of boundaries. Each tick begun is sampled and
/// rendered once, so `ticks` counts the render calls.
pub open spec fn run(s: DashboardLoop, script: Seq<TickInput>) -> DashboardLoop
    decreases script.len(),
{
    if script.len() == 0 {
        s
    } else {
        run(step(s, script[0]), script.drop_first())
    }
}

/// A stopped loop never samples again: it keeps its state through any run.
pub proof fn lemma_stopped_is_final(s: DashboardLoop, script: Seq<TickInput>)
    requires
        is_stopped(s.phase),
    ensures
        run(s, script) == s,
    decreases script.len(),
{
    if script.len() > 0 {
        lemma_stopped_is_final(step(s, script[0]), script.drop_first());
    }
}

/// Once cancellation has been requested before boundary `n` of a run, at
/// most `n` further ticks are begun and rendered, and the loop is stopped at
/// that boundary at the latest.
pub proof fn lemma_cancel_bounds_renders(s: DashboardLoop, script: Seq<TickInput>, n: nat)
    requires
        s.phase != Phase::InTick,
        forall|i: int| n <= i < script.len() ==> (#[trigger] script[i]).cancelled,
    ensures
        run(s, script).ticks <= s.ticks + n,
        script.len() > n ==> is_stopped(run(s, script).phase),
    decreases script.len(),
{
    if script.len() == 0 {
        return;
    }
    let t = step(s, script[0]);
    let rest = script.drop_first();
    if is_stopped(t.phase) {
        lemma_stopped_is_final(t, rest);
    } else {
        assert(n > 0) by {
            if n == 0 {
                assert(script[0].cancelled);
            }
        }
        assert forall|i: int| (n - 1) as nat <= i < rest.len() implies (#[trigger] rest[i]).cancelled by {
            assert(rest[i] == script[i + 1]);
        }
        lemma_cancel_bounds_renders(t, rest, (n - 1) as nat);
    }
}

/// A render error ends the loop with that reason, and no tick is begun
/// after it, whatever comes next.
pub proof fn lemma_render_error_final(s: DashboardLoop, now: nat, script: Seq<TickInput>)
    requires
        s.phase == Phase::InTick,
    ensures
        s.finish_spec(false, now).0.phase == Phase::Stopped(StopReason::RenderError),
        run(s.finish_spec(false, now).0, script) == s.finish_spec(false, now).0,
        run(s.finish_spec(false, now).0, script).ticks == s.ticks,
{
    lemma_stopped_is_final(s.finish_spec(false, now).0, script);
}

/// The schedule does not drift: when tick `k` (with `k` ticks begun so far,
/// counting it) renders before the next boundary is due, the next tick is due
/// exactly at `start + k * period`, however long rendering took.
pub proof fn lemma_deadline_anchored(s: DashboardLoop, now: nat)
    requires
        s.phase == Phase::InTick,
        now <= s.due(s.ticks as nat),
        s.due(s.ticks as nat) <= u64::MAX,
    ensures
        s.finish_spec(true, now).1 == TickEnd::NextAt((s.start_ms + s.ticks * s.period_ms) as u64),
{
}

/// Ticks never overlap: the next tick is never due before the current one
/// finished rendering.
pub proof fn lemma_next_tick_after_render(s: DashboardLoop, now: nat)
    requires
        s.phase == Phase::InTick,
        now <= u64::MAX,
    ensures
        s.finish_spec(true, now).1 matches TickEnd::NextAt(d) && d >= now,
{
}

/// The deadlines handed out over a run of boundaries, in order.
pub open spec fn deadlines(s: DashboardLoop, script: Seq<TickInput>) -> Seq<int>
    decreases script.len(),
{
    if script.len() == 0 {
        Seq::empty()
    } else {
        let t = script[0];
        let (b, a) = s.begin_spec(t.cancelled);
        let rest = deadlines(step(s, t), script.drop_first());
        match a {
            TickAction::Sample => match b.finish_spec(t.render_ok, t.now_ms as nat).1 {
                TickEnd::NextAt(d) => seq![d as int] + rest,
                TickEnd::Stop(_) => rest,
            },
            TickAction::Stop(_) => rest,
        }
    }
}

/// No cumulative drift: over a run in which no cancellation comes, every
/// frame renders, and every tick ends before the next one is due, the `i`-th
/// deadline handed out is exactly `start + (k + i + 1) * period`, where `k`
/// ticks had begun before the run.
pub proof fn lemma_no_cumulative_drift(s: DashboardLoop, script: Seq<TickInput>)
    requires
        s.phase == Phase::Waiting,
        s.ticks + script.len() < u64::MAX,
        s.due((s.ticks + script.len()) as nat) <= u64::MAX,
        forall|i: int| 0 <= i < script.len() ==> !(#[trigger] script[i]).cancelled && script[i].render_ok
            && script[i].now_ms <= s.due((s.ticks + i + 1) as nat),
    ensures
        deadlines(s, script).len() == script.len(),
        forall|i: int| 0 <= i < script.len() ==> #[trigger] deadlines(s, script)[i] == s.due((s.ticks + i + 1) as nat),
    decreases script.len(),
{
    if script.len() == 0 {
        return;
    }
    let t = script[0];
    let rest = script.drop_first();
    let b = s.begin_spec(t.cancelled).0;
    assert(!t.cancelled && t.render_ok && t.now_ms <= s.due((s.ticks + 1) as nat));
    let n = step(s, t);
    let p = s.period_ms as int;
    let k = s.ticks + 1;
    assert(k * p <= (s.ticks + script.len()) * p) by (nonlinear_arith)
        requires
            k <= s.ticks + script.len(),
            p >= 0,
    ;
    assert(s.due(b.ticks as nat) <= u64::MAX);
    assert(b.next_deadline(t.now_ms as nat) == s.due((s.ticks + 1) as nat));
    assert forall|i: int| 0 <= i < rest.len() implies !(#[trigger] rest[i]).cancelled && rest[i].render_ok
        && rest[i].now_ms <= n.due((n.ticks + i + 1) as nat) by {
        assert(rest[i] == script[i + 1]);
    }
    lemma_no_cumulative_drift(n, rest);
    let ds = deadlines(s, script);
    assert(ds == seq![s.due((s.ticks + 1) as nat)] + deadlines(n, rest));
    assert forall|i: int| 0 <= i < script.len() implies #[trigger] ds[i] == s.due((s.ticks + i + 1) as nat) by {
        if i > 0 {
            assert(ds[i] == deadlines(n, rest)[i - 1]);
        }
    }
}

} // verus!
