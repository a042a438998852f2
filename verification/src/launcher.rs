use vstd::prelude::*;

verus! {

/// Result of one launch attempt cycle over the whole candidate list.
#[derive(Clone, Copy, PartialEq, Eq, Structural, Debug)]
pub enum LaunchOutcome {
    /// Some candidate began executing; no further candidate was tried.
    Started,
    /// Every candidate failed to start.
    NotFound,
}

/// The daemon executable's file name. The platform decides only the suffix,
/// never the search order.
pub open spec fn binary_name_view(windows: bool) -> Seq<char> {
    if windows {
        "ugudu.exe"@
    } else {
        "ugudu"@
    }
}

pub fn binary_name(windows: bool) -> (r: &'static str)
    ensures
        r@ == binary_name_view(windows),
{
    if windows {
        "ugudu.exe"
    } else {
        "ugudu"
    }
}

/// The ordered candidate locations: the system-wide install directory, the
/// user-local install directory, the Go install directory, then the bare
/// name left to the search path. When no home directory is known, the two
/// candidates that need it are skipped rather than built malformed.
pub open spec fn candidate_views(home: Option<Seq<char>>, windows: bool) -> Seq<Seq<char>> {
    let name = binary_name_view(windows);
    match home {
        Some(h) => seq![
            "/usr/local/bin/"@ + name,
            h + "/.local/bin/"@ + name,
            h + "/go/bin/"@ + name,
            name,
        ],
        None => seq!["/usr/local/bin/"@ + name, name],
    }
}

/// The built paths read, entry for entry, as the intended candidate views.
pub open spec fn paths_match(v: Seq<String>, views: Seq<Seq<char>>) -> bool {
    v.len() == views.len() && forall|i: int| 0 <= i < v.len() ==> v[i]@ == views[i]
}

/// Builds the candidate paths in their fixed priority order.
pub fn candidate_paths(home: Option<&str>, windows: bool) -> (v: Vec<String>)
    ensures
        home matches Some(h) ==> paths_match(v@, candidate_views(Some(h@), windows)),
        home is None ==> paths_match(v@, candidate_views(None::<Seq<char>>, windows)),
{
    let name = binary_name(windows);
    let mut v: Vec<String> = Vec::new();
    v.push(String::from_str("/usr/local/bin/").concat(name));
    match home {
        Some(h) => {
            v.push(String::from_str(h).concat("/.local/bin/").concat(name));
            v.push(String::from_str(h).concat("/go/bin/").concat(name));
        },
        None => {},
    }
    v.push(String::from_str(name));
    v
}

/// State of the launch iteration: the index of the candidate to try next,
/// or the outcome once the iteration is over.
#[derive(Clone, Copy, PartialEq, Eq, Structural, Debug)]
pub enum LaunchPhase {
    Trying { index: usize },
    Done { outcome: LaunchOutcome },
}

/// A `Trying` index always points into the candidate list.
pub open spec fn launch_phase_wf(s: LaunchPhase, total: int) -> bool {
    s matches LaunchPhase::Trying { index } ==> index < total
}

pub open spec fn launch_init_view(total: int) -> LaunchPhase {
    if total == 0 {
        LaunchPhase::Done { outcome: LaunchOutcome::NotFound }
    } else {
        LaunchPhase::Trying { index: 0 }
    }
}

/// Starts an iteration over `total` candidates; an empty list is already
/// exhausted.
pub fn launch_init(total: usize) -> (s: LaunchPhase)
    ensures
        s == launch_init_view(total as int),
        launch_phase_wf(s, total as int),
{
    if total == 0 {
        LaunchPhase::Done { outcome: LaunchOutcome::NotFound }
    } else {
        LaunchPhase::Trying { index: 0 }
    }
}

/// One spawn attempt on the current candidate: success ends the iteration
/// with `Started`, failure moves to the next candidate, and failure on the
/// last candidate ends it with `NotFound`. A finished iteration stays put.
pub open spec fn launch_step_view(s: LaunchPhase, spawned: bool, total: int) -> LaunchPhase {
    match s {
        LaunchPhase::Trying { index } => if spawned {
            LaunchPhase::Done { outcome: LaunchOutcome::Started }
        } else if index + 1 < total {
            LaunchPhase::Trying { index: (index + 1) as usize }
        } else {
            LaunchPhase::Done { outcome: LaunchOutcome::NotFound }
        },
        LaunchPhase::Done { .. } => s,
    }
}

/// Feeds the outcome of one spawn attempt into the iteration. Spawn
/// failures are absorbed: they only advance the iteration, never escalate.
pub fn launch_step(s: LaunchPhase, spawned: bool, total: usize) -> (t: LaunchPhase)
    requires
        launch_phase_wf(s, total as int),
    ensures
        t == launch_step_view(s, spawned, total as int),
        launch_phase_wf(t, total as int),
{
    match s {
        LaunchPhase::Trying { index } => {
            if spawned {
                LaunchPhase::Done { outcome: LaunchOutcome::Started }
            } else if index + 1 < total {
                LaunchPhase::Trying { index: index + 1 }
            } else {
                LaunchPhase::Done { outcome: LaunchOutcome::NotFound }
            }
        },
        LaunchPhase::Done { outcome } => LaunchPhase::Done { outcome },
    }
}

/// The iteration run against a sequence of spawn outcomes, one per step.
pub open spec fn launch_run(s: LaunchPhase, spawns: Seq<bool>, total: int) -> LaunchPhase
    decreases spawns.len(),
{
    if spawns.len() == 0 {
        s
    } else {
        launch_run(launch_step_view(s, spawns[0], total), spawns.drop_first(), total)
    }
}

/// A finished iteration never changes again, whatever else is fed in: the
/// first successful candidate is final, and so is exhaustion.
pub proof fn lemma_launch_done_absorbing(o: LaunchOutcome, spawns: Seq<bool>, total: int)
    ensures
        launch_run(LaunchPhase::Done { outcome: o }, spawns, total) == (LaunchPhase::Done {
            outcome: o,
        }),
    decreases spawns.len(),
{
    if spawns.len() > 0 {
        lemma_launch_done_absorbing(o, spawns.drop_first(), total);
    }
}

proof fn lemma_trying_first_success(i: usize, spawns: Seq<bool>, total: usize)
    requires
        1 <= spawns.len(),
        i + spawns.len() <= total,
        spawns[spawns.len() - 1],
        forall|j: int| 0 <= j < spawns.len() - 1 ==> !spawns[j],
    ensures
        launch_run(LaunchPhase::Trying { index: i }, spawns, total as int) == (LaunchPhase::Done {
            outcome: LaunchOutcome::Started,
        }),
    decreases spawns.len(),
{
    if spawns.len() == 1 {
        assert(spawns[0]);
        lemma_launch_done_absorbing(LaunchOutcome::Started, spawns.drop_first(), total as int);
    } else {
        assert(!spawns[0]);
        let rest = spawns.drop_first();
        assert(rest[rest.len() - 1] == spawns[spawns.len() - 1]);
        assert(forall|j: int| 0 <= j < rest.len() - 1 ==> !rest[j]);
        lemma_trying_first_success((i + 1) as usize, rest, total);
    }
}

/// The iteration is deterministic and first-match-wins: if the candidate at
/// position `f` is the earliest one whose spawn succeeds, the run over the
/// first `f + 1` outcomes ends with `Started` — the candidates after `f`
/// are never attempted.
pub proof fn lemma_launch_picks_first_success(spawns: Seq<bool>, total: usize, f: int)
    requires
        spawns.len() == total,
        0 <= f < spawns.len(),
        spawns[f],
        forall|j: int| 0 <= j < f ==> !spawns[j],
    ensures
        launch_run(launch_init_view(total as int), spawns.take(f + 1), total as int)
            == (LaunchPhase::Done { outcome: LaunchOutcome::Started }),
{
    let pre = spawns.take(f + 1);
    assert(pre[pre.len() - 1] == spawns[f]);
    assert(forall|j: int| 0 <= j < pre.len() - 1 ==> !pre[j]);
    lemma_trying_first_success(0, pre, total);
}

proof fn lemma_trying_all_fail(i: usize, spawns: Seq<bool>, total: usize)
    requires
        1 <= spawns.len(),
        i + spawns.len() == total,
        forall|j: int| 0 <= j < spawns.len() ==> !spawns[j],
    ensures
        launch_run(LaunchPhase::Trying { index: i }, spawns, total as int) == (LaunchPhase::Done {
            outcome: LaunchOutcome::NotFound,
        }),
    decreases spawns.len(),
{
    assert(!spawns[0]);
    if spawns.len() == 1 {
        lemma_launch_done_absorbing(LaunchOutcome::NotFound, spawns.drop_first(), total as int);
    } else {
        lemma_trying_all_fail((i + 1) as usize, spawns.drop_first(), total);
    }
}

/// When every candidate fails to spawn, the run over the whole list ends
/// with `NotFound`: exhaustion, and only exhaustion, is reported.
pub proof fn lemma_launch_all_fail(spawns: Seq<bool>, total: usize)
    requires
        spawns.len() == total,
        forall|j: int| 0 <= j < spawns.len() ==> !spawns[j],
    ensures
        launch_run(launch_init_view(total as int), spawns, total as int) == (LaunchPhase::Done {
            outcome: LaunchOutcome::NotFound,
        }),
{
    if total > 0 {
        lemma_trying_all_fail(0, spawns, total);
    }
}

/// The caller-facing result of a launch attempt cycle, worded as the
/// orchestration boundary reports it.
pub fn launch_result(outcome: LaunchOutcome) -> (r: Result<(), String>)
    ensures
        outcome == LaunchOutcome::Started ==> r is Ok,
        outcome == LaunchOutcome::NotFound ==> (r matches Err(e) && e@
            == "Could not find or start ugudu daemon"@),
{
    match outcome {
        LaunchOutcome::Started => Ok(()),
        LaunchOutcome::NotFound => Err(String::from_str("Could not find or start ugudu daemon")),
    }
}

} // verus!
