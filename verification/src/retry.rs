//! The retry policy: how many transmit attempts are made and when to stop.
//!
//! The controller starts with a budget of `MAX_TX_RETRIES` attempts. Every
//! retryable failure uses one up; the attempt that uses the last one ends the
//! run with `RetryBudgetExhausted`, so at most `MAX_TX_RETRIES` attempts are
//! made in all. A success or a fatal failure ends the run at once.
//!
//! The caller performs the attempts and tells the controller the result of
//! each; the controller answers whether to try again.

use crate::session::{AttemptResult, AttemptResultView, FatalReason};
use vstd::prelude::*;

verus! {

/// The number of attempts that a run may use.
pub const MAX_TX_RETRIES: u8 = 3;

/// Why a run ended without success.
#[derive(Clone, Copy, Debug, PartialEq, Eq, Structural)]
pub enum CalibrationError {
    /// An attempt found the device unavailable.
    DeviceUnavailable,
    /// Every attempt of the budget failed: the budget the run started with.
    RetryBudgetExhausted(u8),
}

/// The state of a run: still going, with the number of attempts that are
/// left, or over, with the verdict.
pub enum RetryState {
    Active { remaining_attempts: nat },
    Finished(Result<(), CalibrationError>),
}

/// What the caller does next.
#[derive(Clone, Copy, Debug, PartialEq, Eq)]
pub enum Decision {
    /// Make another attempt; this many are left, the next one included.
    Retry { remaining_attempts: u8 },
    /// Stop: the run is over with this verdict.
    Finish(Result<(), CalibrationError>),
}

/// The state in which every run starts.
pub open spec fn initial_state() -> RetryState {
    RetryState::Active { remaining_attempts: MAX_TX_RETRIES as nat }
}

/// The state after an attempt with the given result. A finished run stays as
/// it is.
pub open spec fn step(state: RetryState, result: AttemptResultView) -> RetryState {
    match state {
        RetryState::Finished(_) => state,
        RetryState::Active { remaining_attempts } => match result {
            AttemptResultView::Success => RetryState::Finished(Ok(())),
            AttemptResultView::FatalFailure(FatalReason::DeviceUnavailable) => RetryState::Finished(
                Err(CalibrationError::DeviceUnavailable),
            ),
            AttemptResultView::RetryableFailure(_) => if remaining_attempts > 1 {
                RetryState::Active { remaining_attempts: (remaining_attempts - 1) as nat }
            } else {
                RetryState::Finished(Err(CalibrationError::RetryBudgetExhausted(MAX_TX_RETRIES)))
            },
        },
    }
}

/// The decision that goes with a state.
pub open spec fn decision_in(state: RetryState) -> Decision {
    match state {
        RetryState::Active { remaining_attempts } => Decision::Retry {
            remaining_attempts: remaining_attempts as u8,
        },
        RetryState::Finished(verdict) => Decision::Finish(verdict),
    }
}

/// The state of a fresh run after the first `count` results of a script.
pub open spec fn state_after(results: Seq<AttemptResultView>, count: nat) -> RetryState
    decreases count,
{
    if count == 0 {
        initial_state()
    } else {
        step(state_after(results, (count - 1) as nat), results[count - 1])
    }
}

/// Drives the retry policy of one run.
#[derive(Clone, Copy, Debug, PartialEq, Eq)]
pub struct RetryController {
    remaining_attempts: u8,
    verdict: Option<Result<(), CalibrationError>>,
}

impl View for RetryController {
    type V = RetryState;

    closed spec fn view(&self) -> RetryState {
        match self.verdict {
            Some(verdict) => RetryState::Finished(verdict),
            None => RetryState::Active { remaining_attempts: self.remaining_attempts as nat },
        }
    }
}

impl RetryController {
    #[verifier::type_invariant]
    spec fn well_formed(self) -> bool {
        self.verdict is None ==> 1 <= self.remaining_attempts <= MAX_TX_RETRIES
    }

    /// Starts a run with the full budget.
    pub fn new() -> (controller: RetryController)
        ensures
            controller@ == initial_state(),
    {
        RetryController { remaining_attempts: MAX_TX_RETRIES, verdict: None }
    }

    /// The attempts that are left, if the run is still going.
    pub fn remaining_attempts(&self) -> (remaining: Option<u8>)
        ensures
            match self@ {
                RetryState::Active { remaining_attempts } => remaining == Some(
                    remaining_attempts as u8,
                ) && 1 <= remaining_attempts <= MAX_TX_RETRIES,
                RetryState::Finished(_) => remaining is None,
            },
    {
        proof {
            use_type_invariant(self);
        }
        match self.verdict {
            Some(_) => None,
            None => Some(self.remaining_attempts),
        }
    }

    /// The verdict, if the run is over.
    pub fn verdict(&self) -> (verdict: Option<Result<(), CalibrationError>>)
        ensures
            match self@ {
                RetryState::Active { .. } => verdict is None,
                RetryState::Finished(v) => verdict == Some(v),
            },
    {
        self.verdict
    }

    /// Takes in the result of an attempt and decides how to go on.
    ///
    /// A success ends the run. A fatal failure ends it at once and leaves
    /// the budget alone. A retryable failure uses up one attempt; if none is
    /// left after that the run ends with `RetryBudgetExhausted`. On a run
    /// that is already over nothing changes and the verdict is repeated.
    pub fn record(&mut self, result: &AttemptResult) -> (decision: Decision)
        ensures
            final(self)@ == step(old(self)@, result@),
            decision == decision_in(final(self)@),
            decision matches Decision::Retry { remaining_attempts } ==> 1 <= remaining_attempts
                < MAX_TX_RETRIES,
    {
        proof {
            use_type_invariant(&*self);
        }
        if let Some(verdict) = self.verdict {
            return Decision::Finish(verdict);
        }
        let verdict = match result {
            AttemptResult::Success => Ok(()),
            AttemptResult::FatalFailure(FatalReason::DeviceUnavailable) => Err(
                CalibrationError::DeviceUnavailable,
            ),
            AttemptResult::RetryableFailure(_) => {
                if self.remaining_attempts > 1 {
                    self.remaining_attempts = self.remaining_attempts - 1;
                    return Decision::Retry { remaining_attempts: self.remaining_attempts };
                }
                Err(CalibrationError::RetryBudgetExhausted(MAX_TX_RETRIES))
            },
        };
        self.verdict = Some(verdict);
        Decision::Finish(verdict)
    }
}

/// The mathematical values of a script of attempt results.
pub open spec fn script_view(results: Seq<AttemptResult>) -> Seq<AttemptResultView> {
    results.map_values(|result: AttemptResult| result@)
}

/// Runs the retry policy over a script that stands for the link: the result
/// of the first attempt, of the second, and so on. Attempts are made while
/// the run is going and the script lasts. Returns the controller as the run
/// left it and the number of attempts made.
pub fn run_scripted(results: &[AttemptResult]) -> (run: (RetryController, usize))
    ensures
        run.1 <= results@.len(),
        run.1 <= MAX_TX_RETRIES,
        run.0@ == state_after(script_view(results@), run.1 as nat),
        forall|made: nat| made < run.1 ==> state_after(script_view(results@), made) is Active,
        run.0@ is Active ==> run.1 == results@.len(),
{
    let ghost script = script_view(results@);
    let mut controller = RetryController::new();
    let mut made: usize = 0;
    while made < results.len()
        invariant
            made <= results@.len(),
            script == script_view(results@),
            controller@ == state_after(script, made as nat),
            forall|earlier: nat| earlier < made ==> state_after(script, earlier) is Active,
        ensures
            made <= results@.len(),
            controller@ == state_after(script, made as nat),
            forall|earlier: nat| earlier < made ==> state_after(script, earlier) is Active,
            controller@ is Active ==> made == results@.len(),
        decreases results@.len() - made,
    {
        if controller.verdict().is_some() {
            break;
        }
        controller.record(&results[made]);
        made += 1;
    }
    proof {
        if made > 0 {
            lemma_active_run(script, (made - 1) as nat);
        }
    }
    (controller, made)
}

/// While a run is going, every attempt so far was a retryable failure and
/// each used up one attempt of the budget. So a run never gets beyond
/// `MAX_TX_RETRIES` attempts.
pub proof fn lemma_active_run(results: Seq<AttemptResultView>, count: nat)
    requires
        count <= results.len(),
        state_after(results, count) is Active,
    ensures
        count < MAX_TX_RETRIES,
        state_after(results, count) == (RetryState::Active {
            remaining_attempts: (MAX_TX_RETRIES - count) as nat,
        }),
        forall|i: int| 0 <= i < count ==> results[i] is RetryableFailure,
        forall|earlier: nat| earlier <= count ==> state_after(results, earlier) is Active,
    decreases count,
{
    if count > 0 {
        let previous = (count - 1) as nat;
        lemma_active_run(results, previous);
    }
}

/// A finished run stays as it is, whatever attempts are reported after it.
pub proof fn lemma_finished_is_final(results: Seq<AttemptResultView>, count: nat, later: nat)
    requires
        count <= later <= results.len(),
        state_after(results, count) is Finished,
    ensures
        state_after(results, later) == state_after(results, count),
    decreases later,
{
    if later > count {
        lemma_finished_is_final(results, count, (later - 1) as nat);
    }
}

/// After `MAX_TX_RETRIES` attempts every run is over.
pub proof fn lemma_budget_bounds_run(results: Seq<AttemptResultView>, count: nat)
    requires
        MAX_TX_RETRIES <= count <= results.len(),
    ensures
        state_after(results, count) is Finished,
{
    if state_after(results, count) is Active {
        lemma_active_run(results, count);
    }
}

/// If the first `MAX_TX_RETRIES` attempts all fail in a retryable way, each
/// of them is made, the last of them ends the run with
/// `RetryBudgetExhausted`, and no further attempt changes that.
pub proof fn lemma_retryable_failures_exhaust_budget(
    results: Seq<AttemptResultView>,
    count: nat,
)
    requires
        MAX_TX_RETRIES <= count <= results.len(),
        forall|i: int| 0 <= i < MAX_TX_RETRIES ==> results[i] is RetryableFailure,
    ensures
        forall|made: nat| made < MAX_TX_RETRIES ==> state_after(results, made) is Active,
        state_after(results, count) == RetryState::Finished(
            Err(CalibrationError::RetryBudgetExhausted(MAX_TX_RETRIES)),
        ),
{
    lemma_only_failures_so_far(results, (MAX_TX_RETRIES - 1) as nat);
    lemma_active_run(results, (MAX_TX_RETRIES - 1) as nat);
    lemma_finished_is_final(results, MAX_TX_RETRIES as nat, count);
}

/// As long as fewer than `MAX_TX_RETRIES` attempts were made and all of them
/// failed in a retryable way, the run is going.
pub proof fn lemma_only_failures_so_far(results: Seq<AttemptResultView>, count: nat)
    requires
        count < MAX_TX_RETRIES,
        count <= results.len(),
        forall|i: int| 0 <= i < count ==> results[i] is RetryableFailure,
    ensures
        state_after(results, count) == (RetryState::Active {
            remaining_attempts: (MAX_TX_RETRIES - count) as nat,
        }),
    decreases count,
{
    if count > 0 {
        lemma_only_failures_so_far(results, (count - 1) as nat);
    }
}

/// The first attempt that does not fail in a retryable way decides the run,
/// if it comes within the budget: a success ends it with success, a fatal
/// failure ends it with `DeviceUnavailable`, and the budget plays no part.
/// In particular a fatal failure of the first attempt ends the run with no
/// further attempt.
pub proof fn lemma_first_decisive_attempt(
    results: Seq<AttemptResultView>,
    decisive: nat,
    count: nat,
)
    requires
        decisive < MAX_TX_RETRIES,
        decisive < count <= results.len(),
        forall|i: int| 0 <= i < decisive ==> results[i] is RetryableFailure,
        !(results[decisive as int] is RetryableFailure),
    ensures
        state_after(results, decisive) is Active,
        results[decisive as int] is Success ==> state_after(results, count)
            == RetryState::Finished(Ok(())),
        results[decisive as int] is FatalFailure ==> state_after(results, count)
            == RetryState::Finished(Err(CalibrationError::DeviceUnavailable)),
{
    lemma_only_failures_so_far(results, decisive);
    lemma_finished_is_final(results, decisive + 1, count);
}

} // verus!
