//! Polling supervisor.
//!
//! The supervisor owns one polling loop per monitored service.  `start`
//! discards any previous generation, raises the shared running flag and
//! spawns a fresh generation from a directory snapshot; `stop` lowers the
//! flag and drops the generation; `restart` is stop-then-start on a fresh
//! snapshot.  Each loop is a small state machine stepped by its runner: it
//! probes its target, records the classified outcome into the metrics sink,
//! then sleeps its interval in one-second slices, observing the running flag
//! at every decision point so a stop is honored within one slice.

use vstd::prelude::*;
use crate::metrics::{MetricEntry, MetricsSink, recorded_into};
use crate::models::{Service, StoreError};

verus! {

/// Polling interval used for services whose configured interval is not
/// positive.
pub const DEFAULT_INTERVAL_SECS: u64 = 30;

/// Fixed per-probe timeout, independent of any polling interval, so a hung
/// target cannot block its loop beyond this bound.
pub const PROBE_TIMEOUT_SECS: u64 = 10;

/// The effective polling interval for a configured value: the default for
/// non-positive configurations, the value itself otherwise.
pub open spec fn spec_normalize_interval(configured: i64) -> u64 {
    if configured <= 0 {
        DEFAULT_INTERVAL_SECS
    } else {
        configured as u64
    }
}

/// Normalizes a configured polling interval.
pub fn normalize_interval(configured: i64) -> (effective: u64)
    ensures
        effective == spec_normalize_interval(configured),
        configured <= 0 ==> effective == DEFAULT_INTERVAL_SECS,
        configured > 0 ==> effective == configured as u64,
        effective >= 1,
{
    if configured <= 0 {
        DEFAULT_INTERVAL_SECS
    } else {
        configured as u64
    }
}

/// Success-class HTTP status codes.
pub open spec fn spec_is_success_status(code: u16) -> bool {
    200 <= code < 300
}

/// The UP/DOWN classification of one probe exchange: `Some(code)` when a
/// response with that status arrived, `None` when none did (transport
/// error or timeout).
pub open spec fn spec_classify(response_status: Option<u16>) -> bool {
    match response_status {
        Option::Some(code) => spec_is_success_status(code),
        Option::None => false,
    }
}

/// Classifies one probe exchange.  UP exactly on a success-class status;
/// every failure — no response, timeout, or any other status — is DOWN,
/// never an error to the caller.
pub fn classify_probe(response_status: Option<u16>) -> (up: bool)
    ensures
        up == spec_classify(response_status),
{
    match response_status {
        Option::Some(code) => 200 <= code && code < 300,
        Option::None => false,
    }
}

/// Where a polling loop stands between two decisions.
pub enum LoopPhase {
    /// At the top of the loop, about to decide whether to check again.
    Ready,
    /// A probe of the target is in flight.
    Probing,
    /// Has slept `slept` one-second slices of its interval so far.
    Sleeping { slept: u64 },
    /// Observed the stop signal and exited; takes no further action.
    Exited,
}

/// What the loop's runner must do after a step.
#[derive(Debug, PartialEq, Eq, Structural)]
pub enum LoopAction {
    /// Probe the target now with the fixed timeout, measuring latency around
    /// the call, then hand the outcome to `complete_check`.
    ProbeNow,
    /// Sleep one one-second slice, then step again.
    SleepSlice,
    /// Step again immediately.
    Continue,
    /// The loop is finished; no further probe or metric write follows.
    Exit,
}

/// One per-service polling loop.  The service snapshot is captured by value
/// when the loop is spawned: a later directory change does not affect it.
pub struct PollLoop {
    pub service: Service,
    /// The normalized polling interval, in seconds.
    pub interval_secs: u64,
    pub phase: LoopPhase,
}

/// One decision of a polling loop.  Whenever the running flag is down the
/// loop exits at once, wherever it stands — even mid-sleep.  While the flag
/// is up: from the loop top it launches a probe; mid-sleep it either sleeps
/// one more slice or, with the interval elapsed, returns to the loop top.
pub open spec fn spec_step(l: PollLoop, running: bool) -> (PollLoop, LoopAction) {
    if !running {
        (PollLoop { phase: LoopPhase::Exited, ..l }, LoopAction::Exit)
    } else {
        match l.phase {
            LoopPhase::Ready => (PollLoop { phase: LoopPhase::Probing, ..l }, LoopAction::ProbeNow),
            LoopPhase::Sleeping { slept } => {
                if slept < l.interval_secs {
                    (
                        PollLoop { phase: LoopPhase::Sleeping { slept: (slept + 1) as u64 }, ..l },
                        LoopAction::SleepSlice,
                    )
                } else {
                    (PollLoop { phase: LoopPhase::Ready, ..l }, LoopAction::Continue)
                }
            },
            _ => (l, LoopAction::Exit),
        }
    }
}

impl PollLoop {
    /// Advances the loop by one decision, observing the shared running flag
    /// as it stands at this instant.  Not called while a probe is in flight
    /// (`complete_check` finishes that) nor after the loop exited.
    pub fn step(&mut self, running: bool) -> (action: LoopAction)
        requires
            !(old(self).phase is Probing),
            !(old(self).phase is Exited),
        ensures
            *final(self) == spec_step(*old(self), running).0,
            action == spec_step(*old(self), running).1,
            !running ==> action is Exit && final(self).phase is Exited,
    {
        if !running {
            self.phase = LoopPhase::Exited;
            return LoopAction::Exit;
        }
        match self.phase {
            LoopPhase::Ready => {
                self.phase = LoopPhase::Probing;
                LoopAction::ProbeNow
            },
            LoopPhase::Sleeping { slept } => {
                if slept < self.interval_secs {
                    self.phase = LoopPhase::Sleeping { slept: slept + 1 };
                    LoopAction::SleepSlice
                } else {
                    self.phase = LoopPhase::Ready;
                    LoopAction::Continue
                }
            },
            _ => LoopAction::Exit,
        }
    }

    /// Finishes the probe that `step` launched: classifies the response,
    /// records the observation into the sink under this loop's labels, and
    /// moves the loop into its sleep phase.
    pub fn complete_check(
        &mut self,
        sink: &mut MetricsSink,
        response_status: Option<u16>,
        latency_ms: u64,
    )
        requires
            old(self).phase is Probing,
            old(sink).wf(),
        ensures
            final(sink).wf(),
            *final(self) == (PollLoop { phase: LoopPhase::Sleeping { slept: 0 }, ..*old(self) }),
            recorded_into(
                old(sink)@,
                final(sink)@,
                old(self).service.healthcheck_url@,
                old(self).service.service_name@,
                spec_classify(response_status),
                latency_ms,
            ),
    {
        let up = classify_probe(response_status);
        sink.record_check(&self.service.healthcheck_url, &self.service.service_name, up, latency_ms);
        self.phase = LoopPhase::Sleeping { slept: 0 };
    }
}

/// Outcome of one check, successful or not, as handed back to the caller of
/// an ad hoc check.  Ephemeral: produced by the probe, recorded into the
/// sink, never stored.
pub struct CheckResult {
    pub service_id: i64,
    pub service_name: String,
    pub up: bool,
    pub latency_ms: u64,
    /// Unix seconds at which the check finished.
    pub checked_at: i64,
}

/// Records one check of a single service into the sink and reports its
/// outcome: the core of the one-off check endpoint, independent of whether
/// the service's scheduled loop is running.
pub fn observe_check(
    sink: &mut MetricsSink,
    service: &Service,
    response_status: Option<u16>,
    latency_ms: u64,
    now: i64,
) -> (r: CheckResult)
    requires
        old(sink).wf(),
    ensures
        final(sink).wf(),
        recorded_into(
            old(sink)@,
            final(sink)@,
            service.healthcheck_url@,
            service.service_name@,
            spec_classify(response_status),
            latency_ms,
        ),
        r.service_id == service.id,
        r.service_name@ == service.service_name@,
        r.up == spec_classify(response_status),
        r.latency_ms == latency_ms,
        r.checked_at == now,
{
    let up = classify_probe(response_status);
    sink.record_check(&service.healthcheck_url, &service.service_name, up, latency_ms);
    CheckResult {
        service_id: service.id,
        service_name: service.service_name.clone(),
        up,
        latency_ms,
        checked_at: now,
    }
}

/// One target's probe exchange, as gathered during a fleet-wide sweep.
pub struct FleetObservation {
    pub service: Service,
    pub response_status: Option<u16>,
    pub latency_ms: u64,
}

/// A chain of sink states that records the observations one by one: state
/// `k + 1` is state `k` with observation `k` recorded under its own
/// service's labels and with its own classification.
pub open spec fn fleet_chain(states: Seq<Seq<MetricEntry>>, obs: Seq<FleetObservation>) -> bool {
    &&& states.len() == obs.len() + 1
    &&& forall|k: int|
        0 <= k < obs.len() ==> recorded_into(
            #[trigger] states[k],
            states[k + 1],
            obs[k].service.healthcheck_url@,
            obs[k].service.service_name@,
            spec_classify(obs[k].response_status),
            obs[k].latency_ms,
        )
}

/// The sink after a sweep: some chain of intermediate states leads from the
/// sink before to the sink after, recording each observation in order.
pub open spec fn fleet_recorded(
    s0: Seq<MetricEntry>,
    s1: Seq<MetricEntry>,
    obs: Seq<FleetObservation>,
) -> bool {
    exists|states: Seq<Seq<MetricEntry>>|
        #[trigger] fleet_chain(states, obs) && states.first() == s0 && states.last() == s1
}

/// Sweeps the full directory snapshot once, sequentially: records every
/// observation into the sink in order and returns the total number checked.
/// The core of the fleet-wide ad hoc check.
pub fn observe_fleet(sink: &mut MetricsSink, observations: &Vec<FleetObservation>) -> (total: usize)
    requires
        old(sink).wf(),
    ensures
        final(sink).wf(),
        total == observations@.len(),
        fleet_recorded(old(sink)@, final(sink)@, observations@),
{
    let ghost s0: Seq<MetricEntry> = sink@;
    let ghost mut states: Seq<Seq<MetricEntry>> = seq![s0];
    let n = observations.len();
    let mut i: usize = 0;
    while i < n
        invariant
            i <= n,
            n == observations@.len(),
            sink.wf(),
            states.len() == i + 1,
            states.first() == s0,
            states.last() == sink@,
            fleet_chain(states, observations@.take(i as int)),
        decreases n - i,
    {
        let obs = &observations[i];
        let up = classify_probe(obs.response_status);
        sink.record_check(
            &obs.service.healthcheck_url,
            &obs.service.service_name,
            up,
            obs.latency_ms,
        );
        proof {
            states = states.push(sink@);
            assert(fleet_chain(states, observations@.take(i + 1))) by {
                assert(forall|k: int|
                    0 <= k < i ==> #[trigger] states[k] == states.drop_last()[k]);
                assert(observations@.take(i + 1)[i as int] == observations@[i as int]);
            }
        }
        i = i + 1;
    }
    proof {
        assert(observations@.take(n as int) =~= observations@);
        assert(fleet_chain(states, observations@));
    }
    n
}

/// The loop that `start` spawns for one service.
pub open spec fn spawned_loop(s: Service) -> PollLoop {
    PollLoop {
        service: s,
        interval_secs: spec_normalize_interval(s.healthcheck_duration_seconds),
        phase: LoopPhase::Ready,
    }
}

/// The generation of loops that `start` spawns from a directory snapshot:
/// one loop per listed service, in order.
pub open spec fn spawned_fleet(services: Seq<Service>) -> Seq<PollLoop> {
    services.map_values(|s: Service| spawned_loop(s))
}

/// The generation a directory read yields: one loop per service on success,
/// none at all when the read failed — a failed read never fails `start`.
pub open spec fn generation_of(directory: Result<Vec<Service>, StoreError>) -> Seq<PollLoop> {
    match directory {
        Result::Ok(services) => spawned_fleet(services@),
        Result::Err(_) => Seq::<PollLoop>::empty(),
    }
}

/// Lifecycle owner of the polling loops.  At most one generation is alive at
/// a time: `start` discards the previous generation before spawning the new
/// one, and `stop` leaves none.  Callers serialize `start`/`stop`/`restart`
/// (the owner holds the supervisor under a lock).
pub struct CollectorManager {
    running: bool,
    loops: Vec<PollLoop>,
}

impl CollectorManager {
    /// The shared running flag every loop of the current generation observes.
    pub closed spec fn spec_running(&self) -> bool {
        self.running
    }

    /// The loops of the current generation.
    pub closed spec fn spec_loops(&self) -> Seq<PollLoop> {
        self.loops@
    }

    /// A fresh supervisor: stopped, owning no loops.
    pub fn new() -> (m: CollectorManager)
        ensures
            !m.spec_running(),
            m.spec_loops() == Seq::<PollLoop>::empty(),
    {
        CollectorManager { running: false, loops: Vec::new() }
    }

    pub fn is_running(&self) -> (b: bool)
        ensures
            b == self.spec_running(),
    {
        self.running
    }

    /// The current generation, for the runner to drive.
    pub fn active_loops(&self) -> (v: &Vec<PollLoop>)
        ensures
            v@ == self.spec_loops(),
    {
        &self.loops
    }

    /// Stops the current generation: lowers the running flag — which makes
    /// every live loop exit within one sleep slice — and discards every
    /// tracked loop, so a racing `start` can never see stale ones.
    pub fn stop(&mut self)
        ensures
            !final(self).spec_running(),
            final(self).spec_loops() == Seq::<PollLoop>::empty(),
    {
        self.running = false;
        self.loops = Vec::new();
    }

    /// Starts a generation from a directory snapshot: first stops any
    /// previous generation, then raises the running flag and spawns one loop
    /// per listed service, each seeded with the service captured by value
    /// and its normalized interval.  A failed directory read yields a
    /// running supervisor with zero loops, never a failed `start`.
    pub fn start(&mut self, directory: Result<Vec<Service>, StoreError>)
        ensures
            final(self).spec_running(),
            final(self).spec_loops() == generation_of(directory),
    {
        self.stop();
        self.running = true;
        let services: Vec<Service> = match directory {
            Result::Ok(s) => s,
            Result::Err(_) => Vec::new(),
        };
        let ghost dir_view: Seq<Service> = services@;
        let mut new_loops: Vec<PollLoop> = Vec::new();
        let n = services.len();
        let mut i: usize = 0;
        while i < n
            invariant
                i <= n,
                n == services@.len(),
                services@ == dir_view,
                new_loops@ == spawned_fleet(dir_view.take(i as int)),
            decreases n - i,
        {
            let s = services[i].clone();
            let interval_secs = normalize_interval(s.healthcheck_duration_seconds);
            new_loops.push(PollLoop { service: s, interval_secs, phase: LoopPhase::Ready });
            proof {
                assert(dir_view.take(i + 1).drop_last() =~= dir_view.take(i as int));
                assert(spawned_fleet(dir_view.take(i + 1)) =~= spawned_fleet(
                    dir_view.take(i as int),
                ).push(spawned_loop(dir_view[i as int])));
            }
            i = i + 1;
        }
        proof {
            assert(dir_view.take(n as int) =~= dir_view);
        }
        self.loops = new_loops;
    }

    /// Stop, then start from a fresh directory snapshot: the new generation
    /// wholly replaces the old fleet.
    pub fn restart(&mut self, directory: Result<Vec<Service>, StoreError>)
        ensures
            final(self).spec_running(),
            final(self).spec_loops() == generation_of(directory),
    {
        self.start(directory);
    }
}

/// Once the running flag is down, one step of any live loop exits it at
/// once — from the loop top as well as mid-sleep — and issues no action
/// that probes or records.  `stop` lowers the flag and discards the
/// tracked generation, so no metric write follows a confirmed stop until
/// the next `start`.
pub proof fn lemma_stopped_loop_exits(l: PollLoop)
    ensures
        spec_step(l, false).1 is Exit,
        spec_step(l, false).0.phase is Exited,
{
}

/// With distinct service ids in the directory snapshot, the generation that
/// `start` spawns holds at most one loop per service id.  A stopped
/// supervisor holds none, and every reachable set of tracked loops is one
/// of the two, so at most one loop per service id is ever tracked.
pub proof fn lemma_one_loop_per_service(services: Seq<Service>)
    requires
        forall|i: int, j: int|
            0 <= i < services.len() && 0 <= j < services.len() && i != j
                ==> services[i].id != services[j].id,
    ensures
        forall|i: int, j: int|
            0 <= i < spawned_fleet(services).len() && 0 <= j < spawned_fleet(services).len() && i
                != j ==> spawned_fleet(services)[i].service.id != spawned_fleet(
                services,
            )[j].service.id,
{
    assert forall|i: int, j: int|
        0 <= i < spawned_fleet(services).len() && 0 <= j < spawned_fleet(services).len() && i
            != j implies spawned_fleet(services)[i].service.id != spawned_fleet(
        services,
    )[j].service.id by {
        assert(spawned_fleet(services)[i] == spawned_loop(services[i]));
        assert(spawned_fleet(services)[j] == spawned_loop(services[j]));
    }
}

/// A restart fully replaces the fleet: afterwards a loop for a service id
/// exists exactly when the fresh directory snapshot lists that id —
/// services removed from the directory have no loop, services added have
/// one — whatever generation ran before.
pub proof fn lemma_restart_replaces_fleet(services: Seq<Service>, id: i64)
    ensures
        (exists|i: int|
            0 <= i < spawned_fleet(services).len() && spawned_fleet(services)[i].service.id == id)
            <==> (exists|j: int| 0 <= j < services.len() && services[j].id == id),
{
    if exists|i: int|
        0 <= i < spawned_fleet(services).len() && spawned_fleet(services)[i].service.id == id {
        let i = choose|i: int|
            0 <= i < spawned_fleet(services).len() && spawned_fleet(services)[i].service.id == id;
        assert(spawned_fleet(services)[i] == spawned_loop(services[i]));
        assert(services[i].id == id);
    }
    if exists|j: int| 0 <= j < services.len() && services[j].id == id {
        let j = choose|j: int| 0 <= j < services.len() && services[j].id == id;
        assert(spawned_fleet(services)[j] == spawned_loop(services[j]));
        assert(spawned_fleet(services)[j].service.id == id);
    }
}

} // verus!
