//! The bootstrap of the tool: cloned from the first mirror that answers,
//! built by its script, and checked to be there.

use vstd::prelude::*;
use crate::orchestrator::error::SetupError;
use crate::orchestrator::retry::RetryPolicy;

verus! {

/// Where the bootstrap of the tool stands: which answer the machine waits
/// for, or how the stage ended.
#[derive(Clone, Copy, Debug, PartialEq, Eq)]
pub enum BootstrapState {
    /// Waiting to hear whether the executable is there already.
    AwaitProbe,
    /// Waiting to hear whether the version-control client runs.
    AwaitGit,
    /// Waiting for the destination to be cleared before the clone from
    /// mirror `mirror`, attempt `attempt` (counted from 1).
    AwaitClean { mirror: usize, attempt: u32 },
    /// Waiting for the clone from mirror `mirror`, attempt `attempt`.
    AwaitClone { mirror: usize, attempt: u32 },
    /// Waiting for the bootstrap script.
    AwaitScript,
    /// Waiting to hear whether the executable is there now.
    AwaitVerify,
    /// The tool is installed.
    Finished,
    /// The stage failed.
    Failed(SetupError),
}

/// What the driver of the bootstrap has to do next.
#[derive(Clone, Copy, Debug, PartialEq, Eq)]
pub enum BootstrapAction {
    /// Look whether the tool's executable exists, and report it.
    ProbeTool,
    /// Run the version-control client for its version, and report whether
    /// it ran.
    CheckGit,
    /// Remove what an earlier clone left at the destination, and report
    /// whether that went well.
    CleanDestination,
    /// Wait `wait_secs` seconds, clone from mirror `mirror`, and report
    /// whether the client exited with success.
    Clone { mirror: usize, attempt: u32, wait_secs: u64 },
    /// Run the bootstrap script in the tool's root, and report whether it
    /// exited with success.
    RunScript,
    /// Nothing is left to do.
    Succeed,
    /// Give up with this error.
    Fail(SetupError),
}

/// The state the bootstrap starts in.
pub open spec fn bootstrap_start() -> BootstrapState {
    BootstrapState::AwaitProbe
}

/// The state in which the first attempt begins, or the failure where there
/// is no mirror to clone from.
pub open spec fn first_attempt(mirrors: usize) -> BootstrapState {
    if mirrors == 0 {
        BootstrapState::Failed(SetupError::BootstrapExhausted)
    } else {
        BootstrapState::AwaitClean { mirror: 0, attempt: 1 }
    }
}

/// The state after a clone from `mirror` failed at attempt `attempt`: the
/// next attempt on the same mirror, then the first attempt on the next
/// mirror, then failure.
pub open spec fn after_failed_clone(
    policy: RetryPolicy,
    mirrors: usize,
    mirror: usize,
    attempt: u32,
) -> BootstrapState {
    if attempt < policy.attempts() {
        BootstrapState::AwaitClean { mirror, attempt: (attempt + 1) as u32 }
    } else if mirror + 1 < mirrors {
        BootstrapState::AwaitClean { mirror: (mirror + 1) as usize, attempt: 1 }
    } else {
        BootstrapState::Failed(SetupError::BootstrapExhausted)
    }
}

/// The state that follows `state` when the driver reports `ok` for the
/// action that `state` waits for.
pub open spec fn bootstrap_next(
    policy: RetryPolicy,
    mirrors: usize,
    state: BootstrapState,
    ok: bool,
) -> BootstrapState {
    match state {
        BootstrapState::AwaitProbe => if ok {
            BootstrapState::Finished
        } else {
            BootstrapState::AwaitGit
        },
        BootstrapState::AwaitGit => if ok {
            first_attempt(mirrors)
        } else {
            BootstrapState::Failed(SetupError::GitMissing)
        },
        BootstrapState::AwaitClean { mirror, attempt } => BootstrapState::AwaitClone {
            mirror,
            attempt,
        },
        BootstrapState::AwaitClone { mirror, attempt } => if ok {
            BootstrapState::AwaitScript
        } else {
            after_failed_clone(policy, mirrors, mirror, attempt)
        },
        BootstrapState::AwaitScript => if ok {
            BootstrapState::AwaitVerify
        } else {
            BootstrapState::Failed(SetupError::BootstrapFailed)
        },
        BootstrapState::AwaitVerify => if ok {
            BootstrapState::Finished
        } else {
            BootstrapState::Failed(SetupError::BootstrapVerificationFailed)
        },
        BootstrapState::Finished => BootstrapState::Finished,
        BootstrapState::Failed(e) => BootstrapState::Failed(e),
    }
}

/// What the driver has to do in `state`.
pub open spec fn bootstrap_pending(policy: RetryPolicy, state: BootstrapState) -> BootstrapAction {
    match state {
        BootstrapState::AwaitProbe => BootstrapAction::ProbeTool,
        BootstrapState::AwaitGit => BootstrapAction::CheckGit,
        BootstrapState::AwaitClean { .. } => BootstrapAction::CleanDestination,
        BootstrapState::AwaitClone { mirror, attempt } => BootstrapAction::Clone {
            mirror,
            attempt,
            wait_secs: policy.delay(attempt as nat) as u64,
        },
        BootstrapState::AwaitScript => BootstrapAction::RunScript,
        BootstrapState::AwaitVerify => BootstrapAction::ProbeTool,
        BootstrapState::Finished => BootstrapAction::Succeed,
        BootstrapState::Failed(e) => BootstrapAction::Fail(e),
    }
}

/// The state the bootstrap starts in: the driver is asked first whether the
/// tool is there already.
pub fn start_bootstrap() -> (r: BootstrapState)
    ensures
        r == bootstrap_start(),
{
    BootstrapState::AwaitProbe
}

/// What the driver has to do in `state`. Before attempt number `attempt`
/// of a clone the driver waits the policy's base wait times `attempt`.
pub fn bootstrap_action(policy: &RetryPolicy, state: BootstrapState) -> (r: BootstrapAction)
    ensures
        r == bootstrap_pending(*policy, state),
        r matches BootstrapAction::Clone { attempt, wait_secs, .. } ==> wait_secs == attempt
            * policy.backoff(),
{
    match state {
        BootstrapState::AwaitProbe => BootstrapAction::ProbeTool,
        BootstrapState::AwaitGit => BootstrapAction::CheckGit,
        BootstrapState::AwaitClean { .. } => BootstrapAction::CleanDestination,
        BootstrapState::AwaitClone { mirror, attempt } => BootstrapAction::Clone {
            mirror,
            attempt,
            wait_secs: policy.delay_before(attempt),
        },
        BootstrapState::AwaitScript => BootstrapAction::RunScript,
        BootstrapState::AwaitVerify => BootstrapAction::ProbeTool,
        BootstrapState::Finished => BootstrapAction::Succeed,
        BootstrapState::Failed(e) => BootstrapAction::Fail(e),
    }
}

/// The state that follows `state` when the driver reports `ok` for the
/// action that `state` asked for. `mirrors` is the number of mirrors.
///
/// A tool that is there already ends the stage with success at once. Every
/// attempt begins with the clearing of the destination, and the clone
/// follows whatever the clearing reports. A failed clone is tried again on
/// the same mirror until the policy's attempts are used up, then on the
/// next mirror; after the last attempt on the last mirror the stage fails
/// as exhausted. A finished stage stays finished.
pub fn bootstrap_step(
    policy: &RetryPolicy,
    mirrors: usize,
    state: BootstrapState,
    ok: bool,
) -> (r: BootstrapState)
    ensures
        r == bootstrap_next(*policy, mirrors, state, ok),
{
    match state {
        BootstrapState::AwaitProbe => if ok {
            BootstrapState::Finished
        } else {
            BootstrapState::AwaitGit
        },
        BootstrapState::AwaitGit => if !ok {
            BootstrapState::Failed(SetupError::GitMissing)
        } else if mirrors == 0 {
            BootstrapState::Failed(SetupError::BootstrapExhausted)
        } else {
            BootstrapState::AwaitClean { mirror: 0, attempt: 1 }
        },
        BootstrapState::AwaitClean { mirror, attempt } => BootstrapState::AwaitClone {
            mirror,
            attempt,
        },
        BootstrapState::AwaitClone { mirror, attempt } => if ok {
            BootstrapState::AwaitScript
        } else if attempt < policy.max_attempts() {
            BootstrapState::AwaitClean { mirror, attempt: attempt + 1 }
        } else if mirror < mirrors && mirror + 1 < mirrors {
            BootstrapState::AwaitClean { mirror: mirror + 1, attempt: 1 }
        } else {
            BootstrapState::Failed(SetupError::BootstrapExhausted)
        },
        BootstrapState::AwaitScript => if ok {
            BootstrapState::AwaitVerify
        } else {
            BootstrapState::Failed(SetupError::BootstrapFailed)
        },
        BootstrapState::AwaitVerify => if ok {
            BootstrapState::Finished
        } else {
            BootstrapState::Failed(SetupError::BootstrapVerificationFailed)
        },
        BootstrapState::Finished => BootstrapState::Finished,
        BootstrapState::Failed(e) => BootstrapState::Failed(e),
    }
}

/// The state after `k` attempts in a row have failed, counted from the
/// first attempt on the first mirror. `cleared` tells what the clearing
/// before attempt number `i` (counted from 0) reported.
pub open spec fn after_failures(
    policy: RetryPolicy,
    mirrors: usize,
    cleared: spec_fn(nat) -> bool,
    k: nat,
) -> BootstrapState
    decreases k,
{
    if k == 0 {
        first_attempt(mirrors)
    } else {
        let before = after_failures(policy, mirrors, cleared, (k - 1) as nat);
        let cloning = bootstrap_next(policy, mirrors, before, cleared((k - 1) as nat));
        bootstrap_next(policy, mirrors, cloning, false)
    }
}

/// While every clone fails, the attempts go through each mirror in turn:
/// with `N` the policy's number of attempts, the attempt that follows
/// `mirror * N + attempt - 1` failures is attempt `attempt` on mirror
/// `mirror`, whatever the clearings report.
pub proof fn law_failing_clones_in_order(
    policy: RetryPolicy,
    mirrors: usize,
    cleared: spec_fn(nat) -> bool,
    mirror: usize,
    attempt: u32,
)
    requires
        policy.wf(),
        mirror < mirrors,
        1 <= attempt <= policy.attempts(),
    ensures
        after_failures(
            policy,
            mirrors,
            cleared,
            (mirror * policy.attempts() + attempt - 1) as nat,
        ) == (BootstrapState::AwaitClean { mirror, attempt }),
    decreases mirror, attempt,
{
    policy.lemma_bounds();
    let n = policy.attempts();
    assert(mirror * n >= 0) by (nonlinear_arith)
        requires
            mirror >= 0,
            n >= 0,
    ;
    if attempt > 1 {
        law_failing_clones_in_order(policy, mirrors, cleared, mirror, (attempt - 1) as u32);
    } else if mirror > 0 {
        let prev = (mirror - 1) as usize;
        law_failing_clones_in_order(policy, mirrors, cleared, prev, n as u32);
        assert(prev * n + n == mirror * n) by (nonlinear_arith)
            requires
                prev == mirror - 1,
        ;
    } else {
        assert(mirror * n == 0) by (nonlinear_arith)
            requires
                mirror == 0,
        ;
    }
}

/// Under a policy of `N` attempts and with `M` mirrors, a clone that fails
/// every time is tried exactly `N * M` times: after fewer failures the
/// machine begins another attempt, and the failure number `N * M` ends the
/// stage as exhausted.
pub proof fn law_failing_clones_exhaust(
    policy: RetryPolicy,
    mirrors: usize,
    cleared: spec_fn(nat) -> bool,
)
    requires
        policy.wf(),
    ensures
        forall|k: nat|
            k < policy.attempts() * mirrors ==> #[trigger] after_failures(
                policy,
                mirrors,
                cleared,
                k,
            ) is AwaitClean,
        after_failures(policy, mirrors, cleared, (policy.attempts() * mirrors) as nat)
            == BootstrapState::Failed(SetupError::BootstrapExhausted),
{
    policy.lemma_bounds();
    let n = policy.attempts();
    assert forall|k: nat| k < n * mirrors implies #[trigger] after_failures(
        policy,
        mirrors,
        cleared,
        k,
    ) is AwaitClean by {
        let m = k / n;
        let a = k % n;
        assert(k == m * n + a && 0 <= a < n && 0 <= m) by (nonlinear_arith)
            requires
                m == k / n,
                a == k % n,
                n > 0,
                k >= 0,
        ;
        assert(m < mirrors) by (nonlinear_arith)
            requires
                k == m * n + a,
                0 <= a,
                k < n * mirrors,
                n > 0,
        ;
        law_failing_clones_in_order(policy, mirrors, cleared, m as usize, (a + 1) as u32);
    }
    if mirrors == 0 {
        assert(n * mirrors == 0) by (nonlinear_arith)
            requires
                mirrors == 0,
        ;
    } else {
        let last = (mirrors - 1) as usize;
        law_failing_clones_in_order(policy, mirrors, cleared, last, n as u32);
        assert(last * n + n == n * mirrors) by (nonlinear_arith)
            requires
                last == mirrors - 1,
        ;
    }
}

/// On one mirror the wait does not shrink from one attempt to the next: of
/// two clones from the same mirror, the later attempt is asked to wait at
/// least as long as the earlier. (With the first attempt on the next mirror
/// the wait starts again from the base wait.)
pub proof fn law_backoff_grows_on_a_mirror(
    policy: RetryPolicy,
    mirror: usize,
    earlier: u32,
    later: u32,
)
    requires
        policy.wf(),
        earlier <= later,
    ensures
        bootstrap_pending(policy, BootstrapState::AwaitClone { mirror, attempt: earlier })
            == (BootstrapAction::Clone {
            mirror,
            attempt: earlier,
            wait_secs: (earlier * policy.backoff()) as u64,
        }),
        bootstrap_pending(policy, BootstrapState::AwaitClone { mirror, attempt: later })
            == (BootstrapAction::Clone {
            mirror,
            attempt: later,
            wait_secs: (later * policy.backoff()) as u64,
        }),
        earlier * policy.backoff() <= later * policy.backoff() <= u64::MAX,
{
    policy.lemma_bounds();
    let b = policy.backoff();
    assert(earlier * b <= later * b <= 0xffff_ffff * 0xffff_ffff) by (nonlinear_arith)
        requires
            0 <= earlier <= later <= 0xffff_ffff,
            0 <= b <= 0xffff_ffff,
    ;
}

/// A tool that is there already is not installed again: the stage ends with
/// success on the first answer, before the client is run or anything is
/// removed.
pub proof fn law_present_tool_is_kept(policy: RetryPolicy, mirrors: usize)
    ensures
        bootstrap_next(policy, mirrors, bootstrap_start(), true) == BootstrapState::Finished,
        bootstrap_pending(policy, bootstrap_start()) == BootstrapAction::ProbeTool,
{
}

/// No clone without a clearing before it: the machine asks for a clone
/// only in answer to the clearing of the destination, for the same mirror
/// and attempt.
pub proof fn law_clone_follows_clearing(
    policy: RetryPolicy,
    mirrors: usize,
    state: BootstrapState,
    ok: bool,
)
    requires
        !(state is AwaitClone),
        bootstrap_next(policy, mirrors, state, ok) is AwaitClone,
    ensures
        state is AwaitClean,
        bootstrap_next(policy, mirrors, state, ok) == (BootstrapState::AwaitClone {
            mirror: state->AwaitClean_mirror,
            attempt: state->AwaitClean_attempt,
        }),
{
}

/// The attempts that a clone from `mirror` at attempt `attempt` and all
/// clones after it can still take.
pub open spec fn attempts_left(
    policy: RetryPolicy,
    mirrors: usize,
    mirror: usize,
    attempt: u32,
) -> int {
    let n = policy.attempts() as int;
    let mirrors_left = if mirror < mirrors {
        mirrors - mirror
    } else {
        1
    };
    let used = if attempt < n {
        attempt as int
    } else {
        n
    };
    mirrors_left * n - used
}

/// A bound on the number of answers the bootstrap can still take in
/// `state` before it has ended.
pub open spec fn bootstrap_steps_left(
    policy: RetryPolicy,
    mirrors: usize,
    state: BootstrapState,
) -> int {
    let n = policy.attempts() as int;
    match state {
        BootstrapState::AwaitProbe => 2 * (mirrors * n) + 4,
        BootstrapState::AwaitGit => 2 * (mirrors * n) + 3,
        BootstrapState::AwaitClean { mirror, attempt } => 2 * attempts_left(
            policy,
            mirrors,
            mirror,
            attempt,
        ) + 4,
        BootstrapState::AwaitClone { mirror, attempt } => 2 * attempts_left(
            policy,
            mirrors,
            mirror,
            attempt,
        ) + 3,
        BootstrapState::AwaitScript => 2,
        BootstrapState::AwaitVerify => 1,
        BootstrapState::Finished => 0,
        BootstrapState::Failed(_) => 0,
    }
}

proof fn lemma_attempts_left(policy: RetryPolicy, mirrors: usize, mirror: usize, attempt: u32)
    requires
        policy.wf(),
    ensures
        attempts_left(policy, mirrors, mirror, attempt) >= 0,
        attempt < policy.attempts() ==> attempts_left(
            policy,
            mirrors,
            mirror,
            (attempt + 1) as u32,
        ) == attempts_left(policy, mirrors, mirror, attempt) - 1,
        attempt >= policy.attempts() && mirror + 1 < mirrors ==> attempts_left(
            policy,
            mirrors,
            (mirror + 1) as usize,
            1,
        ) == attempts_left(policy, mirrors, mirror, attempt) - 1,
        mirrors > 0 ==> attempts_left(policy, mirrors, 0, 1) == mirrors * policy.attempts() - 1,
{
    policy.lemma_bounds();
    let n = policy.attempts() as int;
    let left = if mirror < mirrors {
        mirrors - mirror
    } else {
        1
    };
    assert(left * n >= n) by (nonlinear_arith)
        requires
            left >= 1,
            n >= 0,
    ;
    if mirror + 1 < mirrors {
        assert((left - 1) * n == left * n - n) by (nonlinear_arith);
    }
    if mirrors > 0 {
        assert((mirrors - 0) * n == mirrors * n) by (nonlinear_arith);
    }
}

/// The bootstrap ends: the bound is never negative, and every answer lowers
/// it, whatever the driver reports.
pub proof fn law_bootstrap_ends(
    policy: RetryPolicy,
    mirrors: usize,
    state: BootstrapState,
    ok: bool,
)
    requires
        policy.wf(),
        !(state is Finished || state is Failed),
    ensures
        0 <= bootstrap_steps_left(policy, mirrors, bootstrap_next(policy, mirrors, state, ok))
            < bootstrap_steps_left(policy, mirrors, state),
{
    policy.lemma_bounds();
    let n = policy.attempts() as int;
    assert(mirrors * n >= 0) by (nonlinear_arith)
        requires
            n >= 0,
            mirrors >= 0,
    ;
    match state {
        BootstrapState::AwaitGit => {
            lemma_attempts_left(policy, mirrors, 0, 1);
        },
        BootstrapState::AwaitClean { mirror, attempt } => {
            lemma_attempts_left(policy, mirrors, mirror, attempt);
        },
        BootstrapState::AwaitClone { mirror, attempt } => {
            lemma_attempts_left(policy, mirrors, mirror, attempt);
            if attempt < n {
                lemma_attempts_left(policy, mirrors, mirror, (attempt + 1) as u32);
            } else if mirror + 1 < mirrors {
                lemma_attempts_left(policy, mirrors, (mirror + 1) as usize, 1);
            }
        },
        _ => {},
    }
}

} // verus!
