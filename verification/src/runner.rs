//! Decisions of the thread-pool runner: how many workers to spawn, what to
//! name them, the order of its lifecycle steps, and how the outcome of the
//! caller's routine is surfaced.

use vstd::prelude::*;
use vstd::string::StringExecFns;

verus! {

/// The worker count the runner uses: the reported hardware parallelism, or 1
/// where the report is unavailable or degenerate.
pub open spec fn spec_worker_count(parallelism: Option<usize>) -> usize {
    match parallelism {
        Some(k) => if k >= 1 {
            k
        } else {
            1
        },
        None => 1,
    }
}

/// Size the pool from the reported hardware parallelism, falling back to 1
/// when none is available. The result is always at least 1.
pub fn worker_count(parallelism: Option<usize>) -> (n: usize)
    ensures
        n == spec_worker_count(parallelism),
        n >= 1,
{
    match parallelism {
        Some(k) => if k >= 1 {
            k
        } else {
            1
        },
        None => 1,
    }
}

/// The character for one decimal digit.
pub open spec fn dec_digit_char(d: int) -> char
    recommends
        0 <= d < 10,
{
    if d == 0 {
        '0'
    } else if d == 1 {
        '1'
    } else if d == 2 {
        '2'
    } else if d == 3 {
        '3'
    } else if d == 4 {
        '4'
    } else if d == 5 {
        '5'
    } else if d == 6 {
        '6'
    } else if d == 7 {
        '7'
    } else if d == 8 {
        '8'
    } else {
        '9'
    }
}

/// The decimal digits of `n`, most significant first, with no leading zero
/// except for `n == 0` itself.
pub open spec fn dec_digits(n: int) -> Seq<char>
    recommends
        0 <= n,
    decreases n,
{
    if n < 10 {
        seq![dec_digit_char(n)]
    } else {
        dec_digits(n / 10).push(dec_digit_char(n % 10))
    }
}

/// The string slice holding one decimal digit.
fn digit_str(d: usize) -> (s: &'static str)
    requires
        d < 10,
    ensures
        s@ == seq![dec_digit_char(d as int)],
{
    proof {
        reveal_strlit("0");
        reveal_strlit("1");
        reveal_strlit("2");
        reveal_strlit("3");
        reveal_strlit("4");
        reveal_strlit("5");
        reveal_strlit("6");
        reveal_strlit("7");
        reveal_strlit("8");
        reveal_strlit("9");
    }
    let s: &'static str = match d {
        0 => "0",
        1 => "1",
        2 => "2",
        3 => "3",
        4 => "4",
        5 => "5",
        6 => "6",
        7 => "7",
        8 => "8",
        _ => "9",
    };
    proof {
        assert(s@ =~= seq![dec_digit_char(d as int)]);
    }
    s
}

/// Append the decimal digits of `i` to `s`.
fn push_decimal(s: &mut String, i: usize)
    ensures
        final(s)@ == old(s)@ + dec_digits(i as int),
    decreases i,
{
    if i < 10 {
        s.append(digit_str(i));
        proof {
            assert(s@ =~= old(s)@ + dec_digits(i as int));
        }
    } else {
        proof {
            assert(i / 10 < i && i / 10 >= 1) by (nonlinear_arith)
                requires
                    i >= 10,
            ;
        }
        push_decimal(s, i / 10);
        s.append(digit_str(i % 10));
        proof {
            assert(s@ =~= old(s)@ + dec_digits(i as int));
        }
    }
}

/// The diagnostic name of worker `i`: the pool identifier followed by the
/// worker's decimal index.
pub open spec fn spec_worker_name(i: int) -> Seq<char> {
    "smol-macros-"@ + dec_digits(i)
}

/// Build the diagnostic name the runner gives worker thread `i`.
pub fn worker_name(i: usize) -> (name: String)
    ensures
        name@ == spec_worker_name(i as int),
{
    let mut name = String::from_str("smol-macros-");
    push_decimal(&mut name, i);
    name
}

/// One step of a `run` invocation's lifecycle, in the order the runner
/// performs them.
#[derive(Clone, Copy, PartialEq, Eq, Structural, Debug)]
pub enum RunStep {
    /// Spawn worker `i`, which drives the engine until the signal fires.
    Spawn(usize),
    /// Execute the caller's routine on the invoking thread, capturing any
    /// abnormal termination.
    RunBody,
    /// Fire the shutdown signal, whether the routine completed or not.
    FireStop,
    /// Join worker `i`.
    Join(usize),
    /// Surface the routine's outcome: return its value or re-raise.
    Finish,
}

/// The step at position `k` of the plan for `n` workers: the `n` spawns,
/// the routine, the one firing of the signal, the `n` joins, the outcome.
pub open spec fn plan_step(n: int, k: int) -> RunStep {
    if k < n {
        RunStep::Spawn(k as usize)
    } else if k == n {
        RunStep::RunBody
    } else if k == n + 1 {
        RunStep::FireStop
    } else if k < 2 * n + 2 {
        RunStep::Join((k - n - 2) as usize)
    } else {
        RunStep::Finish
    }
}

/// The whole lifecycle of one `run` invocation with `n` workers.
pub open spec fn spec_run_plan(n: int) -> Seq<RunStep> {
    Seq::new((2 * n + 3) as nat, |k: int| plan_step(n, k))
}

/// Lay out the lifecycle of a `run` invocation with `n` workers. The plan
/// does not depend on how the caller's routine ends: the signal is fired and
/// every worker joined on the normal and on the abnormal path alike.
pub fn run_plan(n: usize) -> (plan: Vec<RunStep>)
    requires
        1 <= n,
    ensures
        plan@ == spec_run_plan(n as int),
{
    let mut plan: Vec<RunStep> = Vec::new();
    let mut i: usize = 0;
    while i < n
        invariant
            0 <= i <= n,
            plan@.len() == i,
            forall|k: int| 0 <= k < i ==> plan@[k] == RunStep::Spawn(k as usize),
        decreases n - i,
    {
        plan.push(RunStep::Spawn(i));
        i = i + 1;
    }
    plan.push(RunStep::RunBody);
    plan.push(RunStep::FireStop);
    let mut j: usize = 0;
    while j < n
        invariant
            0 <= j <= n,
            plan@.len() == n + 2 + j,
            forall|k: int| 0 <= k < n ==> plan@[k] == RunStep::Spawn(k as usize),
            plan@[n as int] == RunStep::RunBody,
            plan@[n + 1] == RunStep::FireStop,
            forall|k: int| n + 2 <= k < n + 2 + j ==> plan@[k] == RunStep::Join((k - n - 2) as usize),
        decreases n - j,
    {
        plan.push(RunStep::Join(j));
        j = j + 1;
    }
    plan.push(RunStep::Finish);
    proof {
        assert(plan@ =~= spec_run_plan(n as int));
    }
    plan
}

/// Shutdown discipline of the plan for `n` workers: every worker spawned is
/// joined, the signal is fired exactly once, the firing comes after the
/// caller's routine and before every join, and the outcome is surfaced only
/// after the last join. No path skips the firing or the joins, so no worker
/// thread outlives the invocation.
pub proof fn lemma_run_plan_shutdown_discipline(n: int)
    requires
        n >= 1,
    ensures
        spec_run_plan(n).len() == 2 * n + 3,
        forall|i: int| 0 <= i < n ==> spec_run_plan(n)[i] == RunStep::Spawn(i as usize),
        spec_run_plan(n)[n] == RunStep::RunBody,
        spec_run_plan(n)[n + 1] == RunStep::FireStop,
        forall|k: int|
            0 <= k < 2 * n + 3 ==> (spec_run_plan(n)[k] == RunStep::FireStop <==> k == n + 1),
        forall|k: int|
            n + 2 <= k < 2 * n + 2 ==> #[trigger] spec_run_plan(n)[k] == RunStep::Join(
                (k - n - 2) as usize,
            ),
        spec_run_plan(n)[2 * n + 2] == RunStep::Finish,
        forall|k: int|
            0 <= k < 2 * n + 3 ==> (spec_run_plan(n)[k] == RunStep::Finish <==> k == 2 * n + 2),
{
}

/// The phases of one `run` invocation, in order. Every invocation moves
/// through them one by one; none is skipped, on the normal path or the
/// abnormal one.
#[derive(Clone, Copy, PartialEq, Eq, Structural, Debug)]
pub enum RunnerPhase {
    /// Nothing has happened yet.
    Idle,
    /// Worker threads are being spawned.
    Spawning,
    /// The caller's routine executes while the workers pump the engine.
    Running,
    /// The signal has been fired.
    Stopping,
    /// Every worker has been joined.
    Joined,
    /// The outcome has been surfaced: a value returned or a failure
    /// re-raised.
    Terminal,
}

/// The phase that follows `p`; `Terminal` is final.
pub open spec fn spec_advance(p: RunnerPhase) -> RunnerPhase {
    match p {
        RunnerPhase::Idle => RunnerPhase::Spawning,
        RunnerPhase::Spawning => RunnerPhase::Running,
        RunnerPhase::Running => RunnerPhase::Stopping,
        RunnerPhase::Stopping => RunnerPhase::Joined,
        RunnerPhase::Joined => RunnerPhase::Terminal,
        RunnerPhase::Terminal => RunnerPhase::Terminal,
    }
}

/// Move an invocation to its next phase.
pub fn advance_phase(p: RunnerPhase) -> (next: RunnerPhase)
    ensures
        next == spec_advance(p),
{
    match p {
        RunnerPhase::Idle => RunnerPhase::Spawning,
        RunnerPhase::Spawning => RunnerPhase::Running,
        RunnerPhase::Running => RunnerPhase::Stopping,
        RunnerPhase::Stopping => RunnerPhase::Joined,
        RunnerPhase::Joined => RunnerPhase::Terminal,
        RunnerPhase::Terminal => RunnerPhase::Terminal,
    }
}

/// The phase after `k` transitions from `p`.
pub open spec fn iter_advance(p: RunnerPhase, k: nat) -> RunnerPhase
    decreases k,
{
    if k == 0 {
        p
    } else {
        spec_advance(iter_advance(p, (k - 1) as nat))
    }
}

/// No transition skips `Stopping` or `Joined`: starting from `Idle`, the
/// invocation is stopping after exactly 3 transitions and joined after
/// exactly 4, and it cannot reach `Terminal` before both lie behind it.
pub proof fn lemma_no_phase_skipped(k: nat)
    ensures
        iter_advance(RunnerPhase::Idle, 3) == RunnerPhase::Stopping,
        iter_advance(RunnerPhase::Idle, 4) == RunnerPhase::Joined,
        iter_advance(RunnerPhase::Idle, k) == RunnerPhase::Terminal ==> k >= 5,
{
    assert(iter_advance(RunnerPhase::Idle, 1) == RunnerPhase::Spawning);
    assert(iter_advance(RunnerPhase::Idle, 2) == RunnerPhase::Running);
    assert(iter_advance(RunnerPhase::Idle, 3) == RunnerPhase::Stopping);
    assert(iter_advance(RunnerPhase::Idle, 4) == RunnerPhase::Joined);
    if k < 5 {
        assert(iter_advance(RunnerPhase::Idle, 0) == RunnerPhase::Idle);
    }
}

/// How the caller's routine ended: with a value, or abnormally with a
/// payload the runner must not lose.
pub enum BodyOutcome<T, P> {
    /// The routine returned this value.
    Completed(T),
    /// The routine terminated abnormally with this payload.
    Panicked(P),
}

/// What the runner does last, after the signal has fired and every worker
/// has been joined.
pub enum FinishAction<T, P> {
    /// Hand the routine's value to the caller of `run`.
    ReturnValue(T),
    /// Re-raise the routine's abnormal termination, payload untouched.
    Rethrow(P),
}

/// Decide how a `run` invocation ends once the workers are joined: a value
/// is returned as it is, an abnormal termination is re-raised verbatim —
/// never wrapped, never swallowed.
pub fn outcome_action<T, P>(outcome: BodyOutcome<T, P>) -> (action: FinishAction<T, P>)
    ensures
        outcome matches BodyOutcome::Completed(v) ==> action == FinishAction::<T, P>::ReturnValue(
            v,
        ),
        outcome matches BodyOutcome::Panicked(p) ==> action == FinishAction::<T, P>::Rethrow(p),
{
    match outcome {
        BodyOutcome::Completed(v) => FinishAction::ReturnValue(v),
        BodyOutcome::Panicked(p) => FinishAction::Rethrow(p),
    }
}

} // verus!
