use ugudu_supervisor::health::{classify_probe, get_daemon_status, health_url, HealthStatus};
use ugudu_supervisor::launcher::{
    candidate_paths, launch_init, launch_result, launch_step, LaunchOutcome, LaunchPhase,
};
use ugudu_supervisor::orchestrator::{
    daemon_arg, ensure_action, ensure_daemon_result, ensure_init, ensure_step,
    warmup_should_launch, EnsureAction, EnsureEvent, EnsureOutcome, EnsurePhase,
    POLL_INTERVAL_MILLIS, RETRY_BUDGET, WARMUP_GRACE_MILLIS,
};

/// Drives one `EnsureRunning` call against a scripted list of probe
/// outcomes and a fixed launch outcome. Returns the reported result, how
/// many probes were issued, and how many launch cycles were issued.
fn run_ensure(probes: &[bool], launch_ok: bool) -> (Result<String, String>, usize, usize) {
    let mut state = ensure_init();
    let mut next_probe: usize = 0;
    let mut launches: usize = 0;
    loop {
        match ensure_action(&state) {
            EnsureAction::Probe | EnsureAction::SleepThenProbe { .. } => {
                assert!(next_probe < probes.len(), "asked for an unscripted probe");
                let health = classify_probe(Some(probes[next_probe]));
                next_probe += 1;
                state = ensure_step(state, EnsureEvent::Probed { health });
            }
            EnsureAction::AttemptLaunch => {
                launches += 1;
                let launch = if launch_ok {
                    LaunchOutcome::Started
                } else {
                    LaunchOutcome::NotFound
                };
                state = ensure_step(state, EnsureEvent::Launched { launch });
            }
            EnsureAction::Report { outcome } => {
                return (ensure_daemon_result(outcome), next_probe, launches);
            }
        }
    }
}

/// Drives one launch attempt cycle against scripted spawn outcomes, one
/// per candidate. Returns the outcome and how many spawns were attempted.
fn run_launch(spawns: &[bool]) -> (LaunchOutcome, usize) {
    let total = spawns.len();
    let mut state = launch_init(total);
    let mut attempts: usize = 0;
    while let LaunchPhase::Trying { index } = state {
        assert_eq!(index, attempts, "candidates must be attempted in order");
        state = launch_step(state, spawns[index], total);
        attempts += 1;
    }
    match state {
        LaunchPhase::Done { outcome } => (outcome, attempts),
        LaunchPhase::Trying { .. } => unreachable!(),
    }
}

#[test]
fn probe_classification_covers_every_outcome() {
    assert_eq!(classify_probe(Some(true)), HealthStatus::Reachable);
    assert_eq!(classify_probe(Some(false)), HealthStatus::Unreachable);
    assert_eq!(classify_probe(None), HealthStatus::Unreachable);
}

#[test]
fn health_url_is_the_fixed_local_endpoint() {
    assert_eq!(health_url(), "http://localhost:8080/api/health");
}

#[test]
fn status_query_messages() {
    assert_eq!(
        get_daemon_status(HealthStatus::Reachable),
        Ok("running".to_string())
    );
    assert_eq!(
        get_daemon_status(HealthStatus::Unreachable),
        Err("Daemon is not running".to_string())
    );
}

#[test]
fn ensure_is_idempotent_when_already_healthy() {
    for _ in 0..5 {
        let (result, probes, launches) = run_ensure(&[true], true);
        assert_eq!(result, Ok("already_running".to_string()));
        assert_eq!(probes, 1);
        assert_eq!(launches, 0);
    }
}

#[test]
fn ensure_reports_not_found_after_one_launch_cycle() {
    let (result, probes, launches) = run_ensure(&[false], false);
    assert_eq!(result, Err("Could not find or start ugudu daemon".to_string()));
    assert_eq!(probes, 1, "health must never be polled after a failed launch");
    assert_eq!(launches, 1);
}

#[test]
fn ensure_started_on_first_poll() {
    let (result, probes, launches) = run_ensure(&[false, true], true);
    assert_eq!(result, Ok("started".to_string()));
    assert_eq!(probes, 2);
    assert_eq!(launches, 1);
}

#[test]
fn ensure_started_after_five_probes() {
    // Unreachable on attempts one to four, reachable from attempt five on.
    let (result, probes, launches) = run_ensure(&[false, false, false, false, true], true);
    assert_eq!(result, Ok("started".to_string()));
    assert_eq!(probes, 5);
    assert_eq!(launches, 1);
}

#[test]
fn ensure_started_on_last_budgeted_poll() {
    let mut probes_script = vec![false; 30];
    probes_script.push(true);
    let (result, probes, _) = run_ensure(&probes_script, true);
    assert_eq!(result, Ok("started".to_string()));
    assert_eq!(probes, 31);
}

#[test]
fn ensure_times_out_after_the_full_budget() {
    // One initial probe, then exactly thirty poll probes, never a 31st.
    let probes_script = vec![false; 31];
    let (result, probes, launches) = run_ensure(&probes_script, true);
    assert_eq!(result, Err("Daemon failed to start".to_string()));
    assert_eq!(probes, 31);
    assert_eq!(launches, 1);
}

#[test]
fn candidate_order_with_home() {
    let paths = candidate_paths(Some("/home/alice"), false);
    assert_eq!(
        paths,
        vec![
            "/usr/local/bin/ugudu".to_string(),
            "/home/alice/.local/bin/ugudu".to_string(),
            "/home/alice/go/bin/ugudu".to_string(),
            "ugudu".to_string(),
        ]
    );
}

#[test]
fn candidate_order_on_windows() {
    let paths = candidate_paths(Some("/home/alice"), true);
    assert_eq!(
        paths,
        vec![
            "/usr/local/bin/ugudu.exe".to_string(),
            "/home/alice/.local/bin/ugudu.exe".to_string(),
            "/home/alice/go/bin/ugudu.exe".to_string(),
            "ugudu.exe".to_string(),
        ]
    );
}

#[test]
fn candidates_without_home_skip_home_entries() {
    let paths = candidate_paths(None, false);
    assert_eq!(
        paths,
        vec!["/usr/local/bin/ugudu".to_string(), "ugudu".to_string()]
    );
}

#[test]
fn launch_picks_the_earliest_present_candidate() {
    for present in 0..4 {
        let mut spawns = [false; 4];
        spawns[present] = true;
        let (outcome, attempts) = run_launch(&spawns);
        assert_eq!(outcome, LaunchOutcome::Started);
        assert_eq!(attempts, present + 1, "no candidate beyond the first success");
    }
}

#[test]
fn launch_exhaustion_reports_not_found() {
    let (outcome, attempts) = run_launch(&[false; 4]);
    assert_eq!(outcome, LaunchOutcome::NotFound);
    assert_eq!(attempts, 4, "every candidate is tried exactly once");
    assert_eq!(
        launch_result(outcome),
        Err("Could not find or start ugudu daemon".to_string())
    );
    assert_eq!(launch_result(LaunchOutcome::Started), Ok(()));
}

#[test]
fn launch_of_empty_candidate_list_is_not_found() {
    let (outcome, attempts) = run_launch(&[]);
    assert_eq!(outcome, LaunchOutcome::NotFound);
    assert_eq!(attempts, 0);
}

#[test]
fn ensure_result_messages() {
    assert_eq!(
        ensure_daemon_result(EnsureOutcome::AlreadyRunning),
        Ok("already_running".to_string())
    );
    assert_eq!(
        ensure_daemon_result(EnsureOutcome::Started),
        Ok("started".to_string())
    );
    assert_eq!(
        ensure_daemon_result(EnsureOutcome::NotFound),
        Err("Could not find or start ugudu daemon".to_string())
    );
    assert_eq!(
        ensure_daemon_result(EnsureOutcome::TimedOut),
        Err("Daemon failed to start".to_string())
    );
}

#[test]
fn a_finished_call_only_asks_to_report() {
    let done = ensure_step(
        ensure_init(),
        EnsureEvent::Probed {
            health: HealthStatus::Reachable,
        },
    );
    assert_eq!(
        done,
        EnsurePhase::Done {
            outcome: EnsureOutcome::AlreadyRunning
        }
    );
    assert_eq!(
        ensure_action(&done),
        EnsureAction::Report {
            outcome: EnsureOutcome::AlreadyRunning
        }
    );
}

#[test]
fn timing_constants_and_daemon_argument() {
    assert_eq!(RETRY_BUDGET, 30);
    assert_eq!(POLL_INTERVAL_MILLIS, 500);
    assert_eq!(WARMUP_GRACE_MILLIS, 2000);
    assert_eq!(daemon_arg(), "daemon");
}

#[test]
fn warmup_launches_only_when_unreachable() {
    assert!(warmup_should_launch(HealthStatus::Unreachable));
    assert!(!warmup_should_launch(HealthStatus::Reachable));
}
