use vstd::prelude::*;
use crate::health::HealthStatus;
use crate::launcher::LaunchOutcome;

verus! {

/// How many times the poll loop probes health before declaring a timeout.
pub const RETRY_BUDGET: u32 = 30;

/// The fixed pause before each poll-loop probe, in milliseconds.
pub const POLL_INTERVAL_MILLIS: u64 = 500;

/// The fixed grace period of the fire-and-forget startup warm-up, in
/// milliseconds.
pub const WARMUP_GRACE_MILLIS: u64 = 2000;

/// The single argument handed to the daemon executable to put it into its
/// server-running mode.
pub fn daemon_arg() -> (r: &'static str)
    ensures
        r@ == "daemon"@,
{
    "daemon"
}

/// Result of one `EnsureRunning` orchestration call.
#[derive(Clone, Copy, PartialEq, Eq, Structural, Debug)]
pub enum EnsureOutcome {
    /// The very first probe found the daemon reachable; nothing was launched.
    AlreadyRunning,
    /// The daemon was launched and a poll-loop probe found it reachable.
    Started,
    /// No candidate executable could be launched; health was never polled.
    NotFound,
    /// The retry budget ran out without ever observing a reachable daemon.
    TimedOut,
}

/// State of one `EnsureRunning` call. Each call starts fresh at
/// `InitialProbe`: no daemon state is held across calls.
#[derive(Clone, Copy, PartialEq, Eq, Structural, Debug)]
pub enum EnsurePhase {
    /// About to probe health once, before any launch.
    InitialProbe,
    /// The initial probe failed; about to run one launch attempt cycle.
    Launching,
    /// The daemon was launched; `polls` probes of the poll loop are done.
    Polling { polls: u32 },
    /// The call is over with `outcome`; nothing further happens.
    Done { outcome: EnsureOutcome },
}

/// What the surrounding process reports back: the outcome of a health
/// probe, or the outcome of a launch attempt cycle.
#[derive(Clone, Copy, PartialEq, Eq, Structural, Debug)]
pub enum EnsureEvent {
    Probed { health: HealthStatus },
    Launched { launch: LaunchOutcome },
}

/// What the surrounding process must do next in a given state.
#[derive(Clone, Copy, PartialEq, Eq, Structural, Debug)]
pub enum EnsureAction {
    /// Probe the health endpoint once, immediately.
    Probe,
    /// Run one launch attempt cycle over the candidate list.
    AttemptLaunch,
    /// Sleep `millis`, then probe the health endpoint once.
    SleepThenProbe { millis: u64 },
    /// Stop and report `outcome`.
    Report { outcome: EnsureOutcome },
}

/// A polling state never records a full budget of probes: the probe that
/// would be the last is the one that decides between success and timeout.
pub open spec fn ensure_phase_wf(s: EnsurePhase) -> bool {
    s matches EnsurePhase::Polling { polls } ==> polls < RETRY_BUDGET
}

/// The transition relation of one `EnsureRunning` call:
/// - a reachable initial probe ends the call with `AlreadyRunning`;
/// - an unreachable initial probe moves to the launch attempt;
/// - a failed launch cycle ends the call with `NotFound`;
/// - a successful launch cycle opens the poll loop;
/// - a reachable poll probe ends the call with `Started`;
/// - an unreachable poll probe advances the loop, and on the last probe of
///   the budget ends the call with `TimedOut`.
/// A finished call, or an event that the state does not await, changes
/// nothing.
pub open spec fn ensure_step_view(s: EnsurePhase, e: EnsureEvent) -> EnsurePhase {
    match (s, e) {
        (EnsurePhase::InitialProbe, EnsureEvent::Probed { health }) => {
            if health == HealthStatus::Reachable {
                EnsurePhase::Done { outcome: EnsureOutcome::AlreadyRunning }
            } else {
                EnsurePhase::Launching
            }
        },
        (EnsurePhase::Launching, EnsureEvent::Launched { launch }) => {
            if launch == LaunchOutcome::Started {
                EnsurePhase::Polling { polls: 0 }
            } else {
                EnsurePhase::Done { outcome: EnsureOutcome::NotFound }
            }
        },
        (EnsurePhase::Polling { polls }, EnsureEvent::Probed { health }) => {
            if health == HealthStatus::Reachable {
                EnsurePhase::Done { outcome: EnsureOutcome::Started }
            } else if polls + 1 < RETRY_BUDGET {
                EnsurePhase::Polling { polls: (polls + 1) as u32 }
            } else {
                EnsurePhase::Done { outcome: EnsureOutcome::TimedOut }
            }
        },
        _ => s,
    }
}

/// A fresh `EnsureRunning` call, about to make its initial probe.
pub fn ensure_init() -> (s: EnsurePhase)
    ensures
        s == EnsurePhase::InitialProbe,
        ensure_phase_wf(s),
{
    EnsurePhase::InitialProbe
}

/// Feeds one reported outcome into the call and returns its next state.
pub fn ensure_step(s: EnsurePhase, e: EnsureEvent) -> (t: EnsurePhase)
    requires
        ensure_phase_wf(s),
    ensures
        t == ensure_step_view(s, e),
        ensure_phase_wf(t),
{
    match (s, e) {
        (EnsurePhase::InitialProbe, EnsureEvent::Probed { health }) => {
            if health == HealthStatus::Reachable {
                EnsurePhase::Done { outcome: EnsureOutcome::AlreadyRunning }
            } else {
                EnsurePhase::Launching
            }
        },
        (EnsurePhase::Launching, EnsureEvent::Launched { launch }) => {
            if launch == LaunchOutcome::Started {
                EnsurePhase::Polling { polls: 0 }
            } else {
                EnsurePhase::Done { outcome: EnsureOutcome::NotFound }
            }
        },
        (EnsurePhase::Polling { polls }, EnsureEvent::Probed { health }) => {
            if health == HealthStatus::Reachable {
                EnsurePhase::Done { outcome: EnsureOutcome::Started }
            } else if polls + 1 < RETRY_BUDGET {
                EnsurePhase::Polling { polls: polls + 1 }
            } else {
                EnsurePhase::Done { outcome: EnsureOutcome::TimedOut }
            }
        },
        (other, _) => other,
    }
}

pub open spec fn ensure_action_view(s: EnsurePhase) -> EnsureAction {
    match s {
        EnsurePhase::InitialProbe => EnsureAction::Probe,
        EnsurePhase::Launching => EnsureAction::AttemptLaunch,
        EnsurePhase::Polling { .. } => EnsureAction::SleepThenProbe { millis: POLL_INTERVAL_MILLIS },
        EnsurePhase::Done { outcome } => EnsureAction::Report { outcome },
    }
}

/// What the surrounding process must do next: probe, launch, sleep then
/// probe, or stop and report. A finished call asks only to be reported,
/// never for another probe or launch.
pub fn ensure_action(s: &EnsurePhase) -> (a: EnsureAction)
    ensures
        a == ensure_action_view(*s),
{
    match s {
        EnsurePhase::InitialProbe => EnsureAction::Probe,
        EnsurePhase::Launching => EnsureAction::AttemptLaunch,
        EnsurePhase::Polling { .. } => EnsureAction::SleepThenProbe { millis: POLL_INTERVAL_MILLIS },
        EnsurePhase::Done { outcome } => EnsureAction::Report { outcome: *outcome },
    }
}

/// The caller-facing answer of `EnsureRunning`, worded as the orchestration
/// boundary reports it: plain messages, exactly one per outcome.
pub fn ensure_daemon_result(o: EnsureOutcome) -> (r: Result<String, String>)
    ensures
        o == EnsureOutcome::AlreadyRunning ==> (r matches Ok(s) && s@ == "already_running"@),
        o == EnsureOutcome::Started ==> (r matches Ok(s) && s@ == "started"@),
        o == EnsureOutcome::NotFound ==> (r matches Err(e) && e@
            == "Could not find or start ugudu daemon"@),
        o == EnsureOutcome::TimedOut ==> (r matches Err(e) && e@ == "Daemon failed to start"@),
{
    match o {
        EnsureOutcome::AlreadyRunning => Ok(String::from_str("already_running")),
        EnsureOutcome::Started => Ok(String::from_str("started")),
        EnsureOutcome::NotFound => Err(String::from_str("Could not find or start ugudu daemon")),
        EnsureOutcome::TimedOut => Err(String::from_str("Daemon failed to start")),
    }
}

/// The startup warm-up launches only when its single probe found the
/// daemon unreachable; afterwards it waits `WARMUP_GRACE_MILLIS` without
/// re-probing or reporting.
pub fn warmup_should_launch(h: HealthStatus) -> (b: bool)
    ensures
        b <==> h == HealthStatus::Unreachable,
{
    match h {
        HealthStatus::Reachable => false,
        HealthStatus::Unreachable => true,
    }
}

/// The call run against a sequence of reported outcomes, one per step.
pub open spec fn ensure_run(s: EnsurePhase, events: Seq<EnsureEvent>) -> EnsurePhase
    decreases events.len(),
{
    if events.len() == 0 {
        s
    } else {
        ensure_run(ensure_step_view(s, events[0]), events.drop_first())
    }
}

/// A run over a single event is a single step.
proof fn lemma_ensure_run_one(s: EnsurePhase, e: EnsureEvent)
    ensures
        ensure_run(s, seq![e]) == ensure_step_view(s, e),
{
    reveal_with_fuel(ensure_run, 2);
    assert(seq![e].drop_first() =~= Seq::<EnsureEvent>::empty());
}

/// A run over two events is two steps.
proof fn lemma_ensure_run_two(s: EnsurePhase, e1: EnsureEvent, e2: EnsureEvent)
    ensures
        ensure_run(s, seq![e1, e2]) == ensure_step_view(ensure_step_view(s, e1), e2),
{
    assert(seq![e1, e2] =~= seq![e1] + seq![e2]);
    lemma_ensure_run_append(s, seq![e1], seq![e2]);
    lemma_ensure_run_one(s, e1);
    lemma_ensure_run_one(ensure_step_view(s, e1), e2);
}

/// A finished call never changes again, whatever else is reported: once an
/// outcome stands there is no further probe, launch or state change.
pub proof fn lemma_ensure_done_absorbing(o: EnsureOutcome, events: Seq<EnsureEvent>)
    ensures
        ensure_run(EnsurePhase::Done { outcome: o }, events) == (EnsurePhase::Done { outcome: o }),
    decreases events.len(),
{
    if events.len() > 0 {
        lemma_ensure_done_absorbing(o, events.drop_first());
    }
}

/// Running a call over chained event sequences is running it over the
/// first, then the second, from where the first left it.
pub proof fn lemma_ensure_run_append(s: EnsurePhase, a: Seq<EnsureEvent>, b: Seq<EnsureEvent>)
    ensures
        ensure_run(s, a + b) == ensure_run(ensure_run(s, a), b),
    decreases a.len(),
{
    if a.len() == 0 {
        assert(a + b =~= b);
    } else {
        assert((a + b).drop_first() =~= a.drop_first() + b);
        lemma_ensure_run_append(ensure_step_view(s, a[0]), a.drop_first(), b);
    }
}

/// A poll loop that observes only unreachable probes walks straight
/// through its budget: after `u` such probes from `polls` already done, it
/// is still polling if the budget allows, and otherwise has timed out.
pub proof fn lemma_polling_unreachable(polls: u32, u: nat)
    requires
        polls < RETRY_BUDGET,
        polls + u <= RETRY_BUDGET,
    ensures
        ensure_run(
            EnsurePhase::Polling { polls },
            Seq::new(u, |i: int| EnsureEvent::Probed { health: HealthStatus::Unreachable }),
        ) == if polls + u < RETRY_BUDGET {
            EnsurePhase::Polling { polls: (polls + u) as u32 }
        } else {
            EnsurePhase::Done { outcome: EnsureOutcome::TimedOut }
        },
    decreases u,
{
    let events = Seq::new(u, |i: int| EnsureEvent::Probed { health: HealthStatus::Unreachable });
    if u > 0 {
        if polls + 1 < RETRY_BUDGET {
            lemma_polling_unreachable((polls + 1) as u32, (u - 1) as nat);
            assert(events.drop_first() =~= Seq::new(
                (u - 1) as nat,
                |i: int| EnsureEvent::Probed { health: HealthStatus::Unreachable },
            ));
        } else {
            lemma_ensure_done_absorbing(EnsureOutcome::TimedOut, events.drop_first());
        }
    }
}

/// When the daemon is already healthy, `EnsureRunning` answers
/// `AlreadyRunning` after its single initial probe, and nothing that comes
/// later moves it: no launch attempt is ever issued. Every call starts
/// fresh at `InitialProbe`, so any number of calls under an always
/// reachable endpoint answer `AlreadyRunning` every time.
pub proof fn lemma_ensure_already_running(rest: Seq<EnsureEvent>)
    ensures
        ensure_run(
            EnsurePhase::InitialProbe,
            seq![EnsureEvent::Probed { health: HealthStatus::Reachable }] + rest,
        ) == (EnsurePhase::Done { outcome: EnsureOutcome::AlreadyRunning }),
        ensure_action_view(
            ensure_run(
                EnsurePhase::InitialProbe,
                seq![EnsureEvent::Probed { health: HealthStatus::Reachable }] + rest,
            ),
        ) == (EnsureAction::Report { outcome: EnsureOutcome::AlreadyRunning }),
{
    let first = seq![EnsureEvent::Probed { health: HealthStatus::Reachable }];
    lemma_ensure_run_append(EnsurePhase::InitialProbe, first, rest);
    lemma_ensure_run_one(
        EnsurePhase::InitialProbe,
        EnsureEvent::Probed { health: HealthStatus::Reachable },
    );
    lemma_ensure_done_absorbing(EnsureOutcome::AlreadyRunning, rest);
}

/// When the initial probe fails and no candidate can be launched,
/// `EnsureRunning` answers `NotFound` after exactly one launch attempt
/// cycle, and never polls health: whatever comes after the failed launch,
/// the call stays at that outcome and never enters the poll loop.
pub proof fn lemma_ensure_not_found(rest: Seq<EnsureEvent>)
    ensures
        ensure_run(
            EnsurePhase::InitialProbe,
            seq![EnsureEvent::Probed { health: HealthStatus::Unreachable }],
        ) == EnsurePhase::Launching,
        ensure_run(
            EnsurePhase::InitialProbe,
            seq![
                EnsureEvent::Probed { health: HealthStatus::Unreachable },
                EnsureEvent::Launched { launch: LaunchOutcome::NotFound },
            ] + rest,
        ) == (EnsurePhase::Done { outcome: EnsureOutcome::NotFound }),
{
    let first = seq![
        EnsureEvent::Probed { health: HealthStatus::Unreachable },
        EnsureEvent::Launched { launch: LaunchOutcome::NotFound },
    ];
    lemma_ensure_run_one(
        EnsurePhase::InitialProbe,
        EnsureEvent::Probed { health: HealthStatus::Unreachable },
    );
    lemma_ensure_run_append(EnsurePhase::InitialProbe, first, rest);
    lemma_ensure_run_two(
        EnsurePhase::InitialProbe,
        EnsureEvent::Probed { health: HealthStatus::Unreachable },
        EnsureEvent::Launched { launch: LaunchOutcome::NotFound },
    );
    lemma_ensure_done_absorbing(EnsureOutcome::NotFound, rest);
}

/// The events of a call whose daemon was launched and whose first `u` poll
/// probes found it unreachable.
pub open spec fn launch_then_unreachable_polls(u: nat) -> Seq<EnsureEvent> {
    seq![
        EnsureEvent::Probed { health: HealthStatus::Unreachable },
        EnsureEvent::Launched { launch: LaunchOutcome::Started },
    ] + Seq::new(u, |i: int| EnsureEvent::Probed { health: HealthStatus::Unreachable })
}

proof fn lemma_ensure_polls_unreachable(u: nat)
    requires
        u <= RETRY_BUDGET,
    ensures
        ensure_run(EnsurePhase::InitialProbe, launch_then_unreachable_polls(u)) == if u
            < RETRY_BUDGET {
            EnsurePhase::Polling { polls: u as u32 }
        } else {
            EnsurePhase::Done { outcome: EnsureOutcome::TimedOut }
        },
{
    let first = seq![
        EnsureEvent::Probed { health: HealthStatus::Unreachable },
        EnsureEvent::Launched { launch: LaunchOutcome::Started },
    ];
    let polls = Seq::new(u, |i: int| EnsureEvent::Probed { health: HealthStatus::Unreachable });
    lemma_ensure_run_append(EnsurePhase::InitialProbe, first, polls);
    lemma_ensure_run_two(
        EnsurePhase::InitialProbe,
        EnsureEvent::Probed { health: HealthStatus::Unreachable },
        EnsureEvent::Launched { launch: LaunchOutcome::Started },
    );
    lemma_polling_unreachable(0, u);
}

/// When the daemon becomes reachable on the `k`-th poll probe, within the
/// budget, `EnsureRunning` answers `Started` after exactly `k` poll
/// probes: after `k - 1` unreachable probes it is still polling — the
/// `k`-th probe is needed — and that probe finishes the call.
pub proof fn lemma_ensure_started_on_kth_poll(k: int)
    requires
        1 <= k <= RETRY_BUDGET,
    ensures
        ensure_run(EnsurePhase::InitialProbe, launch_then_unreachable_polls((k - 1) as nat))
            == (EnsurePhase::Polling { polls: (k - 1) as u32 }),
        ensure_run(
            EnsurePhase::InitialProbe,
            launch_then_unreachable_polls((k - 1) as nat) + seq![
                EnsureEvent::Probed { health: HealthStatus::Reachable },
            ],
        ) == (EnsurePhase::Done { outcome: EnsureOutcome::Started }),
{
    lemma_ensure_polls_unreachable((k - 1) as nat);
    lemma_ensure_run_append(
        EnsurePhase::InitialProbe,
        launch_then_unreachable_polls((k - 1) as nat),
        seq![EnsureEvent::Probed { health: HealthStatus::Reachable }],
    );
    lemma_ensure_run_one(
        EnsurePhase::Polling { polls: (k - 1) as u32 },
        EnsureEvent::Probed { health: HealthStatus::Reachable },
    );
}

/// When no poll probe within the budget ever finds the daemon reachable,
/// `EnsureRunning` answers `TimedOut` after exactly the budget of poll
/// probes: one probe before the last it is still polling, and once timed
/// out it never probes again — there is no probe beyond the budget.
pub proof fn lemma_ensure_timeout(rest: Seq<EnsureEvent>)
    ensures
        ensure_run(
            EnsurePhase::InitialProbe,
            launch_then_unreachable_polls((RETRY_BUDGET - 1) as nat),
        ) == (EnsurePhase::Polling { polls: (RETRY_BUDGET - 1) as u32 }),
        ensure_run(
            EnsurePhase::InitialProbe,
            launch_then_unreachable_polls(RETRY_BUDGET as nat) + rest,
        ) == (EnsurePhase::Done { outcome: EnsureOutcome::TimedOut }),
{
    lemma_ensure_polls_unreachable((RETRY_BUDGET - 1) as nat);
    lemma_ensure_polls_unreachable(RETRY_BUDGET as nat);
    lemma_ensure_run_append(
        EnsurePhase::InitialProbe,
        launch_then_unreachable_polls(RETRY_BUDGET as nat),
        rest,
    );
    lemma_ensure_done_absorbing(EnsureOutcome::TimedOut, rest);
}

} // verus!
