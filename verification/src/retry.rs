//! Retry policy: failure classification, logged severities and backoff
//! delays, and the convergence law the policy guarantees.

use vstd::prelude::*;
use crate::types::{BuildError, ChainError};

verus! {

/// Severity a classified failure is logged at.
#[derive(Clone, Copy, Debug, PartialEq, Eq, Structural)]
pub enum Severity {
    Debug,
    Info,
    Warn,
    Error,
}

/// Short fixed pause before any retry, in milliseconds.
pub const SHORT_PAUSE_MS: u64 = 100;

/// Extra pause after a wallet failure, in milliseconds.
pub const WALLET_RETRY_MS: u64 = 5000;

/// Severity and delay prescribed for one classified failure.
#[derive(Clone, Copy, Debug, PartialEq, Eq, Structural)]
pub struct RetryDecision {
    pub severity: Severity,
    pub delay_ms: u64,
}

/// The classification table: a duplicate commitment is routine (debug,
/// short pause); a wallet failure is loud and waits out the wallet
/// retry interval on top of the short pause; everything else warns, or
/// logs an error for a chain failure, and pauses briefly.
pub open spec fn spec_classify(e: BuildError) -> RetryDecision {
    match e {
        BuildError::Chain(ChainError::DuplicateCommitment(_)) => RetryDecision {
            severity: Severity::Debug,
            delay_ms: SHORT_PAUSE_MS,
        },
        BuildError::Chain(ChainError::Other(_)) => RetryDecision {
            severity: Severity::Error,
            delay_ms: SHORT_PAUSE_MS,
        },
        BuildError::Wallet(_) => RetryDecision {
            severity: Severity::Error,
            delay_ms: (WALLET_RETRY_MS + SHORT_PAUSE_MS) as u64,
        },
        BuildError::General(_) => RetryDecision {
            severity: Severity::Warn,
            delay_ms: SHORT_PAUSE_MS,
        },
    }
}

/// Classifies a build failure into the severity it is logged at and the
/// delay taken before the next attempt.
pub fn classify(e: &BuildError) -> (r: RetryDecision)
    ensures
        r == spec_classify(*e),
{
    match e {
        BuildError::Chain(ChainError::DuplicateCommitment(_)) => RetryDecision {
            severity: Severity::Debug,
            delay_ms: SHORT_PAUSE_MS,
        },
        BuildError::Chain(ChainError::Other(_)) => RetryDecision {
            severity: Severity::Error,
            delay_ms: SHORT_PAUSE_MS,
        },
        BuildError::Wallet(_) => RetryDecision {
            severity: Severity::Error,
            delay_ms: WALLET_RETRY_MS + SHORT_PAUSE_MS,
        },
        BuildError::General(_) => RetryDecision {
            severity: Severity::Warn,
            delay_ms: SHORT_PAUSE_MS,
        },
    }
}

/// Number of attempts the orchestrator makes on this outcome sequence
/// before it returns: it stops at the first success (`None`).
pub open spec fn attempts_until_success(outcomes: Seq<Option<BuildError>>) -> int
    decreases outcomes.len(),
{
    if outcomes.len() == 0 {
        0
    } else if outcomes[0] is None {
        1
    } else {
        1 + attempts_until_success(outcomes.skip(1))
    }
}

/// Whether an attempt outcome is a duplicate-commitment failure.
pub open spec fn is_duplicate_failure(o: Option<BuildError>) -> bool {
    o matches Some(BuildError::Chain(ChainError::DuplicateCommitment(_)))
}

/// Duplicate-commitment convergence: if the first `n` attempts fail
/// with a duplicate commitment and attempt `n` (zero-based) succeeds,
/// the orchestrator returns after exactly `n + 1` attempts, and every
/// pause it takes on the way is the short fixed pause.
pub proof fn lemma_duplicate_commitment_convergence(outcomes: Seq<Option<BuildError>>, n: int)
    requires
        0 <= n < outcomes.len(),
        forall|i: int| 0 <= i < n ==> is_duplicate_failure(outcomes[i]),
        outcomes[n] is None,
    ensures
        attempts_until_success(outcomes) == n + 1,
        forall|i: int|
            0 <= i < n ==> #[trigger] spec_classify(outcomes[i]->0).delay_ms == SHORT_PAUSE_MS,
    decreases n,
{
    if n == 0 {
    } else {
        assert(is_duplicate_failure(outcomes[0]));
        let rest = outcomes.skip(1);
        assert forall|i: int| 0 <= i < n - 1 implies is_duplicate_failure(rest[i]) by {
            assert(rest[i] == outcomes[i + 1]);
        }
        assert(rest[n - 1] == outcomes[n]);
        lemma_duplicate_commitment_convergence(rest, n - 1);
    }
    assert forall|i: int| 0 <= i < n implies #[trigger] spec_classify(outcomes[i]->0).delay_ms
        == SHORT_PAUSE_MS by {
        assert(is_duplicate_failure(outcomes[i]));
    }
}

} // verus!
