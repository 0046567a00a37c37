use vstd::prelude::*;
use vstd::string::StringExecFns;
use crate::error::Error;
use crate::power::PowerState;
use crate::scheduler::{LoopHandler, Sample, Tick};

verus! {

/// Where the plugin stands between the host's lifecycle calls.
#[derive(Clone, Copy, Debug, PartialEq, Eq, Structural)]
pub enum Phase {
    /// Set up, not yet enabled: no tick is scheduled.
    Ready,
    /// Enabled: the tick runs on every host frame.
    Running,
    /// Disabled: the tick no longer does anything.
    Stopped,
}

/// How one dispatch attempt ended.
#[derive(Clone, Copy, Debug, PartialEq, Eq, Structural)]
pub enum DispatchOutcome {
    Delivered,
    TransportFailure,
}

/// The plugin's lifecycle: the scheduler, whether its tick is live, and how
/// many dispatches have been handed off and not yet finished.
#[derive(Clone, Copy, Debug, PartialEq, Eq, Structural)]
pub struct DataMonitorPlugin {
    pub loophandler: LoopHandler,
    pub phase: Phase,
    pub in_flight: u64,
}

/// What the plugin reports to the host about itself.
pub struct PluginInfo {
    pub name: String,
    pub signature: String,
    pub description: String,
}

impl DataMonitorPlugin {
    /// Whether a tick hands off a sample: only while Running, with room to
    /// count one more dispatch in flight.
    pub open spec fn accepts_ticks(self) -> bool {
        self.phase == Phase::Running && self.in_flight < u64::MAX
    }

    /// Whether the tick `t` hands a sample to the dispatcher.
    pub open spec fn emits(self, t: Tick) -> bool {
        self.accepts_ticks() && self.loophandler.emits(t)
    }

    /// The state after the tick `t`.
    pub open spec fn next(self, t: Tick) -> DataMonitorPlugin {
        if self.accepts_ticks() {
            DataMonitorPlugin {
                loophandler: self.loophandler.next(t),
                in_flight: if self.loophandler.emits(t) {
                    (self.in_flight + 1) as u64
                } else {
                    self.in_flight
                },
                ..self
            }
        } else {
            self
        }
    }

    /// The state after a sequence of ticks.
    pub open spec fn run(self, ticks: Seq<Tick>) -> DataMonitorPlugin
        decreases ticks.len(),
    {
        if ticks.len() == 0 {
            self
        } else {
            self.run(ticks.drop_last()).next(ticks.last())
        }
    }

    /// The state after one dispatch has finished, whatever its outcome.
    pub open spec fn finished(self) -> DataMonitorPlugin {
        DataMonitorPlugin {
            in_flight: if self.in_flight > 0 {
                (self.in_flight - 1) as u64
            } else {
                0
            },
            ..self
        }
    }

    /// Sets the plugin up once every sensor has been resolved. A failed
    /// resolution is returned as it is, and no plugin, hence no tick,
    /// exists; otherwise the plugin is Ready with an Idle scheduler.
    pub fn start(resolution: Result<(), Error>, threshold_ns: u64, now_ns: u64, start_time: i64) -> (r: Result<DataMonitorPlugin, Error>)
        ensures
            resolution is Err ==> r == Err::<DataMonitorPlugin, Error>(resolution->Err_0),
            resolution is Ok ==> r == Ok::<DataMonitorPlugin, Error>(
                DataMonitorPlugin {
                    loophandler: LoopHandler {
                        threshold_ns,
                        last_run_ns: now_ns,
                        leg_started: false,
                        start_time,
                    },
                    phase: Phase::Ready,
                    in_flight: 0,
                },
            ),
    {
        match resolution {
            Err(e) => Err(e),
            Ok(()) => Ok(
                DataMonitorPlugin {
                    loophandler: LoopHandler::new(threshold_ns, now_ns, start_time),
                    phase: Phase::Ready,
                    in_flight: 0,
                },
            ),
        }
    }

    /// Enables the plugin. Returns true when the tick must be scheduled
    /// now, that is when it was not already running.
    pub fn enable(&mut self) -> (schedule: bool)
        ensures
            *final(self) == (DataMonitorPlugin { phase: Phase::Running, ..*old(self) }),
            schedule == (old(self).phase != Phase::Running),
    {
        let schedule = self.phase != Phase::Running;
        self.phase = Phase::Running;
        schedule
    }

    /// Disables the plugin: no later tick dispatches anything. Returns the
    /// number of dispatches still in flight, which the caller waits for
    /// before its own return.
    pub fn disable(&mut self) -> (wait_for: u64)
        ensures
            *final(self) == (DataMonitorPlugin { phase: Phase::Stopped, ..*old(self) }),
            wait_for == old(self).in_flight,
    {
        self.phase = Phase::Stopped;
        self.in_flight
    }

    /// Runs one host tick. While Running it runs the scheduler and counts a
    /// returned sample as in flight; otherwise it changes nothing.
    pub fn flight_loop(&mut self, now_ns: u64, power: PowerState) -> (r: Option<Sample>)
        ensures
            ({
                let t = Tick { now_ns, power };
                &&& *final(self) == old(self).next(t)
                &&& r is Some <==> old(self).emits(t)
                &&& r is Some ==> r->0 == (Sample { start_time: old(self).loophandler.start_time, power })
            }),
    {
        if self.phase != Phase::Running || self.in_flight == u64::MAX {
            return None;
        }
        let r = self.loophandler.flight_loop(now_ns, power);
        if r.is_some() {
            self.in_flight = self.in_flight + 1;
        }
        r
    }

    /// Records the end of one dispatch. The outcome changes nothing but the
    /// count in flight; the result tells whether it deserves a diagnostic.
    pub fn dispatch_finished(&mut self, outcome: DispatchOutcome) -> (report: bool)
        ensures
            *final(self) == old(self).finished(),
            report == (outcome == DispatchOutcome::TransportFailure),
    {
        if self.in_flight > 0 {
            self.in_flight = self.in_flight - 1;
        }
        match outcome {
            DispatchOutcome::Delivered => false,
            DispatchOutcome::TransportFailure => true,
        }
    }

    /// The plugin's name, signature and description for the host.
    pub fn info(&self) -> (r: PluginInfo)
        ensures
            r.name@ == "Datamonitor"@,
            r.signature@ == "dev.nordgedanken.datamonitor"@,
            r.description@ == "Gets certain datarefs to display in a grafana for review of flights."@,
    {
        PluginInfo {
            name: String::from_str("Datamonitor"),
            signature: String::from_str("dev.nordgedanken.datamonitor"),
            description: String::from_str(
                "Gets certain datarefs to display in a grafana for review of flights.",
            ),
        }
    }
}

/// A plugin that is not Running is left unchanged by any sequence of ticks
/// and dispatches nothing during them: after a failed start there is no
/// plugin at all, before enable and after disable every tick is inert.
pub proof fn lemma_inert_unless_running(p: DataMonitorPlugin, ticks: Seq<Tick>, i: int)
    requires
        p.phase != Phase::Running,
        0 <= i <= ticks.len(),
    ensures
        p.run(ticks.take(i)) == p,
        i < ticks.len() ==> !p.run(ticks.take(i)).emits(ticks[i]),
    decreases i,
{
    if i > 0 {
        assert(ticks.take(i).drop_last() =~= ticks.take(i - 1));
        lemma_inert_unless_running(p, ticks, i - 1);
    }
}

/// After disable, no tick dispatches anything, and every dispatch that was
/// in flight at that moment is counted in what disable returns.
pub proof fn lemma_no_dispatch_after_disable(p: DataMonitorPlugin, ticks: Seq<Tick>, i: int)
    requires
        0 <= i < ticks.len(),
    ensures
        ({
            let stopped = DataMonitorPlugin { phase: Phase::Stopped, ..p };
            &&& !stopped.run(ticks.take(i)).emits(ticks[i])
            &&& stopped.run(ticks.take(i)).in_flight == p.in_flight
        }),
{
    lemma_inert_unless_running(DataMonitorPlugin { phase: Phase::Stopped, ..p }, ticks, i);
}

/// A transport failure is no different from a delivery: both leave the
/// plugin in the same state, and the next tick dispatches exactly when it
/// would have had the finished dispatch never been counted.
pub proof fn lemma_failure_does_not_block(p: DataMonitorPlugin, t: Tick)
    requires
        p.phase == Phase::Running,
    ensures
        p.finished().emits(t) == p.loophandler.emits(t),
        p.finished().next(t).loophandler == p.loophandler.next(t),
{
}

} // verus!
