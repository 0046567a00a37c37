use vstd::prelude::*;
use crate::power::PowerState;

verus! {

/// One second, the default sampling interval, in nanoseconds.
pub const DEFAULT_THRESHOLD_NS: u64 = 1_000_000_000;

/// One tick of the host's real-time loop, as the scheduler sees it: a
/// monotonic clock reading and the power sources read on that tick.
#[derive(Clone, Copy, Debug, PartialEq, Eq, Structural)]
pub struct Tick {
    pub now_ns: u64,
    pub power: PowerState,
}

/// What is handed to the dispatcher: the session's tag and the status
/// record of the tick that emitted it.
#[derive(Clone, Copy, Debug, PartialEq, Eq, Structural)]
pub struct Sample {
    /// Seconds since the epoch at which the session was set up.
    pub start_time: i64,
    pub power: PowerState,
}

/// The sample scheduler's state. Idle while `leg_started` is false, Active
/// once it is true.
#[derive(Clone, Copy, Debug, PartialEq, Eq, Structural)]
pub struct LoopHandler {
    /// Least time between two emissions, in nanoseconds.
    pub threshold_ns: u64,
    /// Monotonic clock reading of the last emission (or of the setup).
    pub last_run_ns: u64,
    /// The session latch: set on the first tick with any power on, never reset.
    pub leg_started: bool,
    /// Wall-clock seconds since the epoch at setup, the tag of every sample.
    pub start_time: i64,
}

/// Time since `last`, counting a clock that reads earlier as no time at all.
pub open spec fn elapsed(now: u64, last: u64) -> int {
    if now >= last {
        now - last
    } else {
        0
    }
}

impl LoopHandler {
    /// Whether the session is running after a tick with power state `p`.
    pub open spec fn started_after(self, p: PowerState) -> bool {
        self.leg_started || p.spec_any_on()
    }

    /// Whether the tick `t` hands a sample to the dispatcher.
    pub open spec fn emits(self, t: Tick) -> bool {
        self.started_after(t.power) && elapsed(t.now_ns, self.last_run_ns) >= self.threshold_ns
    }

    /// The state after the tick `t`.
    pub open spec fn next(self, t: Tick) -> LoopHandler {
        LoopHandler {
            leg_started: self.started_after(t.power),
            last_run_ns: if self.emits(t) {
                t.now_ns
            } else {
                self.last_run_ns
            },
            ..self
        }
    }

    /// The state after a sequence of ticks.
    pub open spec fn run(self, ticks: Seq<Tick>) -> LoopHandler
        decreases ticks.len(),
    {
        if ticks.len() == 0 {
            self
        } else {
            self.run(ticks.drop_last()).next(ticks.last())
        }
    }

    /// Whether the `i`-th tick of `ticks` hands a sample to the dispatcher.
    pub open spec fn emits_at(self, ticks: Seq<Tick>, i: int) -> bool {
        self.run(ticks.take(i)).emits(ticks[i])
    }

    /// A scheduler at setup: Idle, with the setup instant as its last run.
    pub fn new(threshold_ns: u64, now_ns: u64, start_time: i64) -> (r: LoopHandler)
        ensures
            r == (LoopHandler { threshold_ns, last_run_ns: now_ns, leg_started: false, start_time }),
    {
        LoopHandler { threshold_ns, last_run_ns: now_ns, leg_started: false, start_time }
    }

    /// Runs one tick: latches the session on when any power source is on,
    /// and returns the sample to dispatch when the session is running and at
    /// least the threshold has passed since the last emission.
    pub fn flight_loop(&mut self, now_ns: u64, power: PowerState) -> (r: Option<Sample>)
        ensures
            ({
                let t = Tick { now_ns, power };
                &&& *final(self) == old(self).next(t)
                &&& r is Some <==> old(self).emits(t)
                &&& r is Some ==> r->0 == (Sample { start_time: old(self).start_time, power })
            }),
    {
        if power.any_on() && !self.leg_started {
            self.leg_started = true;
        }
        let elapsed_ns: u64 = if now_ns >= self.last_run_ns {
            now_ns - self.last_run_ns
        } else {
            0
        };
        if elapsed_ns >= self.threshold_ns && self.leg_started {
            self.last_run_ns = now_ns;
            Some(Sample { start_time: self.start_time, power })
        } else {
            None
        }
    }
}

/// The latch: after the first `i + 1` ticks the session is running exactly
/// when it was running before them or one of those ticks had a power source
/// on. In particular, once running it stays running whatever later ticks
/// read.
pub proof fn lemma_latch(s: LoopHandler, ticks: Seq<Tick>, i: int)
    requires
        0 <= i < ticks.len(),
    ensures
        s.run(ticks.take(i + 1)).leg_started <==> (s.leg_started || exists|j: int|
            0 <= j <= i && (#[trigger] ticks[j]).power.spec_any_on()),
    decreases i,
{
    assert(ticks.take(i + 1).drop_last() =~= ticks.take(i));
    assert(ticks.take(i + 1).last() == ticks[i]);
    let before = s.run(ticks.take(i));
    assert(s.run(ticks.take(i + 1)) == before.next(ticks[i]));
    if i > 0 {
        lemma_latch(s, ticks, i - 1);
        if before.leg_started {
            let j = choose|j: int| 0 <= j <= i - 1 && (#[trigger] ticks[j]).power.spec_any_on();
            if !s.leg_started {
                assert(0 <= j <= i && ticks[j].power.spec_any_on());
            }
        }
        if exists|j: int| 0 <= j <= i && (#[trigger] ticks[j]).power.spec_any_on() {
            let j = choose|j: int| 0 <= j <= i && (#[trigger] ticks[j]).power.spec_any_on();
            if j < i {
                assert(0 <= j <= i - 1 && ticks[j].power.spec_any_on());
            }
        }
    } else {
        assert(ticks.take(0) =~= Seq::<Tick>::empty());
        assert(before == s);
        if ticks[0].power.spec_any_on() {
            assert(0 <= 0 <= i && ticks[0].power.spec_any_on());
        }
    }
}

/// The latch never resets: a session running before tick `i` is running
/// after every later tick.
pub proof fn lemma_latch_monotonic(s: LoopHandler, ticks: Seq<Tick>, i: int, j: int)
    requires
        0 <= i <= j <= ticks.len(),
        s.run(ticks.take(i)).leg_started,
    ensures
        s.run(ticks.take(j)).leg_started,
    decreases j - i,
{
    if j > i {
        lemma_latch_monotonic(s, ticks, i, j - 1);
        assert(ticks.take(j).drop_last() =~= ticks.take(j - 1));
    }
}

/// No sample is dispatched while Idle: a tick that emits leaves the session
/// running, and a session that was Idle emits nothing before the first tick
/// with a power source on.
pub proof fn lemma_no_emission_while_idle(s: LoopHandler, ticks: Seq<Tick>, i: int)
    requires
        0 <= i < ticks.len(),
        s.emits_at(ticks, i),
    ensures
        s.run(ticks.take(i + 1)).leg_started,
        s.leg_started || exists|j: int| 0 <= j <= i && (#[trigger] ticks[j]).power.spec_any_on(),
{
    assert(ticks.take(i + 1).drop_last() =~= ticks.take(i));
    lemma_latch(s, ticks, i);
}

/// Between two emissions with none in between, the last-run instant is the
/// first emission's clock reading.
proof fn lemma_last_run_between(s: LoopHandler, ticks: Seq<Tick>, i: int, k: int)
    requires
        0 <= i < k <= ticks.len(),
        s.emits_at(ticks, i),
        forall|m: int| i < m < k ==> !s.emits_at(ticks, m),
    ensures
        s.run(ticks.take(k)).last_run_ns == ticks[i].now_ns,
        s.run(ticks.take(k)).threshold_ns == s.threshold_ns,
    decreases k - i,
{
    assert(ticks.take(k).drop_last() =~= ticks.take(k - 1));
    if k > i + 1 {
        lemma_last_run_between(s, ticks, i, k - 1);
        assert(!s.emits_at(ticks, k - 1));
    } else {
        lemma_threshold_kept(s, ticks, i);
    }
}

/// The threshold is never changed by running ticks.
proof fn lemma_threshold_kept(s: LoopHandler, ticks: Seq<Tick>, k: int)
    requires
        0 <= k <= ticks.len(),
    ensures
        s.run(ticks.take(k)).threshold_ns == s.threshold_ns,
        s.run(ticks.take(k)).start_time == s.start_time,
    decreases k,
{
    if k > 0 {
        assert(ticks.take(k).drop_last() =~= ticks.take(k - 1));
        lemma_threshold_kept(s, ticks, k - 1);
    }
}

/// Cadence: on a clock that does not run backwards, of two consecutive
/// emissions the later one's clock reading is at least the threshold past
/// the earlier one's, so no two samples are dispatched within one threshold
/// window.
pub proof fn lemma_emission_spacing(s: LoopHandler, ticks: Seq<Tick>, i: int, j: int)
    requires
        0 <= i < j < ticks.len(),
        s.emits_at(ticks, i),
        s.emits_at(ticks, j),
        forall|m: int| i < m < j ==> !s.emits_at(ticks, m),
        ticks[i].now_ns <= ticks[j].now_ns,
    ensures
        ticks[j].now_ns >= ticks[i].now_ns + s.threshold_ns,
{
    lemma_last_run_between(s, ticks, i, j);
}

} // verus!
