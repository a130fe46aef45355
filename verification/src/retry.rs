//! The retry orchestration protocol: a bounded number of dispatch attempts
//! with a fixed delay between them.
//!
//! The underlying HTTP engine performs each network exchange; this module
//! owns the decisions around it: whether another attempt may start, which
//! error ends a run, and when a backoff is inserted. A whole run is modelled
//! over the sequence of attempt outcomes the engine produces, so that
//! run-level behaviour can be stated and proved.

use vstd::prelude::*;

use crate::error::Error;

verus! {

/// The two parameters of a retry policy: the attempt budget and the fixed
/// delay between attempts. There is no jitter and no exponential growth.
#[derive(Clone, Copy, Debug, PartialEq, Eq, Structural)]
pub struct RetryPolicy {
    /// Maximum number of dispatch attempts.
    pub retries: u32,
    /// Fixed delay between attempts, in milliseconds.
    pub retry_delay_ms: u64,
}

/// How many dispatches a run may perform: the whole budget when the request
/// descriptor can be duplicated for each attempt; at most one otherwise (the
/// sole physical use of the descriptor); none at all on an empty budget.
pub open spec fn attempts_allowed(retries: nat, duplicable: bool) -> nat {
    if duplicable {
        retries
    } else if retries == 0 {
        0
    } else {
        1
    }
}

/// Index of the first successful outcome, if any.
pub open spec fn first_success(outcomes: Seq<bool>) -> Option<nat>
    decreases outcomes.len(),
{
    if outcomes.len() == 0 {
        None
    } else if outcomes[0] {
        Some(0)
    } else {
        match first_success(outcomes.drop_first()) {
            Some(i) => Some(i + 1),
            None => None,
        }
    }
}

/// Number of dispatches a run performs when the engine would answer attempt
/// `i` (1-based) with `outcomes[i - 1]`: dispatching stops at the first
/// success, otherwise when no further attempt is allowed.
pub open spec fn spec_attempts(retries: nat, duplicable: bool, outcomes: Seq<bool>) -> nat {
    let within = outcomes.take(attempts_allowed(retries, duplicable) as int);
    match first_success(within) {
        Some(i) => i + 1,
        None => attempts_allowed(retries, duplicable),
    }
}

/// What a run returns once dispatching stops.
pub ghost enum RunVerdict {
    /// Some attempt succeeded; carries its 1-based index.
    Delivered { attempt: nat },
    /// The descriptor could not be duplicated for a further attempt.
    NonRetriable,
    /// Every permitted attempt failed; the error carries the attempt budget.
    Exhausted { budget: nat },
}

/// The verdict of a run: the first success within the allowed attempts
/// delivers; with none, a budget of zero or a duplicable descriptor exhausts
/// the budget, while a descriptor that cannot be duplicated for the pending
/// second attempt ends the run as non-retriable.
pub open spec fn run_verdict(retries: nat, duplicable: bool, outcomes: Seq<bool>) -> RunVerdict {
    let within = outcomes.take(attempts_allowed(retries, duplicable) as int);
    match first_success(within) {
        Some(i) => RunVerdict::Delivered { attempt: i + 1 },
        None => if !duplicable && retries > 1 {
            RunVerdict::NonRetriable
        } else {
            RunVerdict::Exhausted { budget: retries }
        },
    }
}

/// Number of backoffs a run inserts: one between consecutive attempts, none
/// before the first attempt and none after the last.
pub open spec fn spec_backoffs(retries: nat, duplicable: bool, outcomes: Seq<bool>) -> nat {
    let n = spec_attempts(retries, duplicable, outcomes);
    if n == 0 {
        0
    } else {
        (n - 1) as nat
    }
}

/// What the orchestrator does once an attempt has failed.
pub enum FailurePlan {
    /// Wait this many milliseconds, then dispatch the next attempt.
    Backoff {
        /// How long to wait, in milliseconds.
        delay_ms: u64,
    },
    /// Stop: the run has failed with this error.
    GiveUp {
        /// The error the run ends with.
        error: Error,
    },
}

/// The decision after a failed attempt, where `dispatched` counts the
/// attempts made so far (the failed one included) and `duplicable` says
/// whether a descriptor for a further attempt can still be produced.
///
/// A backoff of exactly the configured delay is requested when, and only
/// when, another attempt follows; an exhausted budget ends the run with the
/// exceeded-budget error carrying the budget, and a descriptor that cannot
/// be duplicated ends it as non-retriable before any further dispatch.
pub fn after_failure(policy: RetryPolicy, duplicable: bool, dispatched: u32) -> (plan: FailurePlan)
    requires
        1 <= dispatched <= policy.retries,
    ensures
        dispatched == policy.retries ==> plan == (FailurePlan::GiveUp {
            error: Error::ExceededMaxRetries(policy.retries),
        }),
        dispatched < policy.retries && !duplicable ==> plan == (FailurePlan::GiveUp {
            error: Error::NonRetriableRequest,
        }),
        dispatched < policy.retries && duplicable ==> plan == (FailurePlan::Backoff {
            delay_ms: policy.retry_delay_ms,
        }),
{
    if dispatched == policy.retries {
        FailurePlan::GiveUp { error: Error::ExceededMaxRetries(policy.retries) }
    } else if !duplicable {
        FailurePlan::GiveUp { error: Error::NonRetriableRequest }
    } else {
        FailurePlan::Backoff { delay_ms: policy.retry_delay_ms }
    }
}

proof fn lemma_first_success_none(s: Seq<bool>)
    requires
        forall|i: int| 0 <= i < s.len() ==> !s[i],
    ensures
        first_success(s) is None,
    decreases s.len(),
{
    if s.len() > 0 {
        assert forall|i: int| 0 <= i < s.drop_first().len() implies !s.drop_first()[i] by {
            assert(s.drop_first()[i] == s[i + 1]);
        }
        lemma_first_success_none(s.drop_first());
    }
}

proof fn lemma_first_success_at(s: Seq<bool>, j: int)
    requires
        0 <= j < s.len(),
        s[j],
        forall|i: int| 0 <= i < j ==> !s[i],
    ensures
        first_success(s) == Some(j as nat),
    decreases j,
{
    if j > 0 {
        assert(!s[0]);
        assert forall|i: int| 0 <= i < j - 1 implies !s.drop_first()[i] by {
            assert(s.drop_first()[i] == s[i + 1]);
        }
        assert(s.drop_first()[j - 1] == s[j]);
        lemma_first_success_at(s.drop_first(), j - 1);
    }
}

/// The observable summary of one whole run over a recorded sequence of
/// attempt outcomes.
pub struct DriveReport {
    /// `Ok` with the 1-based index of the attempt that delivered, or the
    /// error the run ended with.
    pub outcome: Result<u32, Error>,
    /// Number of dispatches performed.
    pub dispatched: u32,
    /// Number of backoffs inserted between attempts.
    pub backoffs: u32,
}

/// Replays the orchestration over a recorded sequence of attempt outcomes
/// (`true` meaning the dispatch succeeded), consulting the same decision
/// function the live drivers use, and reports exactly what the model
/// predicts: the dispatch count, the backoff count, and the final outcome.
pub fn drive(policy: RetryPolicy, duplicable: bool, outcomes: &Vec<bool>) -> (report: DriveReport)
    requires
        outcomes@.len() >= policy.retries,
    ensures
        report.dispatched == spec_attempts(policy.retries as nat, duplicable, outcomes@),
        report.backoffs == spec_backoffs(policy.retries as nat, duplicable, outcomes@),
        (match run_verdict(policy.retries as nat, duplicable, outcomes@) {
            RunVerdict::Delivered { attempt } => report.outcome == Ok::<u32, Error>(
                attempt as u32,
            ),
            RunVerdict::NonRetriable => report.outcome == Err::<u32, Error>(
                Error::NonRetriableRequest,
            ),
            RunVerdict::Exhausted { .. } => report.outcome == Err::<u32, Error>(
                Error::ExceededMaxRetries(policy.retries),
            ),
        }),
{
    let ghost allowed = attempts_allowed(policy.retries as nat, duplicable);
    let ghost within = outcomes@.take(allowed as int);
    if policy.retries == 0 {
        proof {
            lemma_first_success_none(within);
        }
        return DriveReport {
            outcome: Err(Error::ExceededMaxRetries(0)),
            dispatched: 0,
            backoffs: 0,
        };
    }
    let mut dispatched: u32 = 0;
    let mut backoffs: u32 = 0;
    loop
        invariant
            policy.retries >= 1,
            outcomes@.len() >= policy.retries,
            dispatched < policy.retries,
            backoffs == dispatched,
            duplicable ==> forall|j: int| 0 <= j < dispatched ==> !outcomes@[j],
            !duplicable ==> dispatched == 0,
            allowed == attempts_allowed(policy.retries as nat, duplicable),
            within == outcomes@.take(allowed as int),
        decreases policy.retries - dispatched,
    {
        let success = outcomes[dispatched as usize];
        proof {
            assert(within.len() == allowed);
            assert(forall|j: int| 0 <= j < within.len() ==> within[j] == outcomes@[j]);
        }
        if success {
            proof {
                lemma_first_success_at(within, dispatched as int);
            }
            return DriveReport {
                outcome: Ok(dispatched + 1),
                dispatched: dispatched + 1,
                backoffs,
            };
        }
        match after_failure(policy, duplicable, dispatched + 1) {
            FailurePlan::GiveUp { error } => {
                proof {
                    lemma_first_success_none(within);
                }
                return DriveReport {
                    outcome: Err(error),
                    dispatched: dispatched + 1,
                    backoffs,
                };
            },
            FailurePlan::Backoff { delay_ms: _ } => {
                backoffs = backoffs + 1;
                dispatched = dispatched + 1;
            },
        }
    }
}

/// With an empty budget the orchestrator performs no dispatch at all and the
/// run ends with the exceeded-budget error carrying zero.
pub proof fn lemma_zero_budget(duplicable: bool, outcomes: Seq<bool>)
    ensures
        spec_attempts(0, duplicable, outcomes) == 0,
        run_verdict(0, duplicable, outcomes) == (RunVerdict::Exhausted { budget: 0 }),
        spec_backoffs(0, duplicable, outcomes) == 0,
{
    assert(outcomes.take(0).len() == 0);
}

/// Dispatching stops at the first success: when attempt `j + 1` (1-based)
/// is the first to succeed within the allowed attempts, the run delivers at
/// that attempt and performs exactly `j + 1` dispatches — none after it.
pub proof fn lemma_stops_at_first_success(
    retries: nat,
    duplicable: bool,
    outcomes: Seq<bool>,
    j: nat,
)
    requires
        retries <= outcomes.len(),
        j < attempts_allowed(retries, duplicable),
        outcomes[j as int],
        forall|i: int| 0 <= i < j ==> !outcomes[i],
    ensures
        run_verdict(retries, duplicable, outcomes) == (RunVerdict::Delivered { attempt: j + 1 }),
        spec_attempts(retries, duplicable, outcomes) == j + 1,
{
    let within = outcomes.take(attempts_allowed(retries, duplicable) as int);
    assert forall|i: int| 0 <= i < j implies !within[i] by {
        assert(within[i] == outcomes[i]);
    }
    assert(within[j as int] == outcomes[j as int]);
    lemma_first_success_at(within, j as int);
}

/// If the first `retries - 1` attempts fail and the final one succeeds, the
/// run delivers at exactly the final attempt: the dispatch count equals the
/// budget, with no attempt beyond it.
pub proof fn lemma_success_on_final_attempt(retries: nat, outcomes: Seq<bool>)
    requires
        1 <= retries <= outcomes.len(),
        forall|i: int| 0 <= i < retries - 1 ==> !outcomes[i],
        outcomes[retries - 1],
    ensures
        run_verdict(retries, true, outcomes) == (RunVerdict::Delivered { attempt: retries }),
        spec_attempts(retries, true, outcomes) == retries,
{
    lemma_stops_at_first_success(retries, true, outcomes, (retries - 1) as nat);
}

/// If every attempt of the whole budget fails on a duplicable descriptor,
/// the run performs exactly `retries` dispatches and ends with the
/// exceeded-budget error carrying that budget.
pub proof fn lemma_budget_exhausted(retries: nat, outcomes: Seq<bool>)
    requires
        retries <= outcomes.len(),
        forall|i: int| 0 <= i < retries ==> !outcomes[i],
    ensures
        run_verdict(retries, true, outcomes) == (RunVerdict::Exhausted { budget: retries }),
        spec_attempts(retries, true, outcomes) == retries,
{
    let within = outcomes.take(retries as int);
    assert forall|i: int| 0 <= i < within.len() implies !within[i] by {
        assert(within[i] == outcomes[i]);
    }
    lemma_first_success_none(within);
}

/// A descriptor that cannot be duplicated, under a budget that asks for more
/// than one attempt, is dispatched exactly once: if that sole attempt fails,
/// the run ends as non-retriable before any second dispatch.
pub proof fn lemma_non_retriable_stops_early(retries: nat, outcomes: Seq<bool>)
    requires
        1 < retries <= outcomes.len(),
        !outcomes[0],
    ensures
        run_verdict(retries, false, outcomes) == RunVerdict::NonRetriable,
        spec_attempts(retries, false, outcomes) == 1,
{
    let within = outcomes.take(1);
    assert(within[0] == outcomes[0]);
    lemma_first_success_none(within);
}

/// Backoffs sit strictly between attempts: a run of `n` dispatches inserts
/// exactly `n - 1` backoffs — none before the first attempt, none after the
/// last, and none at all when nothing is dispatched.
pub proof fn lemma_backoffs_between_attempts(retries: nat, duplicable: bool, outcomes: Seq<bool>)
    ensures
        spec_attempts(retries, duplicable, outcomes) == 0 ==> spec_backoffs(
            retries,
            duplicable,
            outcomes,
        ) == 0,
        spec_attempts(retries, duplicable, outcomes) >= 1 ==> spec_backoffs(
            retries,
            duplicable,
            outcomes,
        ) == spec_attempts(retries, duplicable, outcomes) - 1,
{
}

} // verus!
