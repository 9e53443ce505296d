//! Retries of executions that failed for a passing reason.

use vstd::prelude::*;

use crate::env::{Env, EnvModel, Event};
use crate::errors::VaultError;
use crate::proposals::Outcome;
use crate::storage;
use crate::types::{RetryConfig, RetryState};
use crate::VaultDAO;

verus! {

/// How long a retry waits at most: about seven days, in ledgers.
pub const MAX_BACKOFF: u64 = 120_960;

/// How often the wait doubles at most.
pub const MAX_BACKOFF_DOUBLINGS: u32 = 30;

/// Whether an execution that failed for a reason may succeed later.
pub open spec fn is_passing(error: VaultError) -> bool {
    error == VaultError::InsufficientBalance || error == VaultError::ConditionsNotMet
}

/// A number doubled several times.
pub open spec fn doubled(n: int, times: nat) -> int
    decreases times,
{
    if times == 0 {
        n
    } else {
        2 * doubled(n, (times - 1) as nat)
    }
}

/// How long a retry waits: the initial wait, doubled for every retry before, up to a cap.
pub open spec fn backoff(initial: u64, retry_count: u32) -> int {
    crate::math::min_int(
        doubled(
            initial as int,
            crate::math::min_int(retry_count - 1, MAX_BACKOFF_DOUBLINGS as int) as nat,
        ),
        MAX_BACKOFF as int,
    )
}

impl EnvModel {
    /// The retries of a proposal so far, none where nothing was recorded.
    pub open spec fn retries(self, proposal_id: u64) -> RetryState {
        match self.retry_state(proposal_id) {
            Some(state) => state,
            None => RetryState { retry_count: 0, next_retry_ledger: 0, last_retry_ledger: 0 },
        }
    }

    /// What scheduling a retry leaves behind.
    pub open spec fn schedule_retry(
        self,
        proposal_id: u64,
        rules: RetryConfig,
        now: u64,
        error: VaultError,
    ) -> Outcome<()> {
        let retry_count = (self.retries(proposal_id).retry_count + 1) as u32;
        if retry_count > rules.max_retries {
            (
                self.publish(Event::RetriesExhausted { proposal_id, retry_count }),
                Err(VaultError::RetryError),
            )
        } else {
            let state = RetryState {
                retry_count,
                next_retry_ledger: (now + backoff(rules.initial_backoff_ledgers, retry_count))
                    as u64,
                last_retry_ledger: now,
            };
            (
                self.with_retry_state(proposal_id, state).publish(
                    Event::RetryScheduled {
                        proposal_id,
                        retry_count,
                        next_ledger: state.next_retry_ledger,
                        error: if is_passing(error) {
                            error.spec_code()
                        } else {
                            0
                        },
                    },
                ),
                Ok(()),
            )
        }
    }

    /// Why a retry has to wait or is refused, if it does or is.
    pub open spec fn retry_refusal(self, proposal_id: u64, rules: RetryConfig) -> Option<
        VaultError,
    > {
        match self.retry_state(proposal_id) {
            Some(state) => if state.retry_count > 0 && ((rules.enabled && state.retry_count
                >= rules.max_retries) || self.now() < state.next_retry_ledger) {
                Some(VaultError::RetryError)
            } else {
                None
            },
            None => None,
        }
    }
}

/// A number that is not zero grows by doubling.
proof fn lemma_doubled_grows(n: int, times: nat)
    requires
        n >= 0,
    ensures
        doubled(n, times) >= n,
        n > MAX_BACKOFF ==> doubled(n, times) > MAX_BACKOFF,
    decreases times,
{
    if times > 0 {
        lemma_doubled_grows(n, (times - 1) as nat);
    }
}

/// Doubling once at first, or once at last, is the same.
proof fn lemma_doubled_first(n: int, times: nat)
    ensures
        doubled(2 * n, times) == doubled(n, times + 1),
    decreases times,
{
    reveal_with_fuel(doubled, 2);
    if times > 0 {
        lemma_doubled_first(n, (times - 1) as nat);
    }
}

/// A retry never waits longer than the cap, nor less than the initial wait where that is
/// below the cap; and it waits no less than the retry before.
pub proof fn law_backoff_grows_to_a_cap(initial: u64, retry_count: u32)
    requires
        1 <= retry_count < u32::MAX,
    ensures
        backoff(initial, retry_count) <= MAX_BACKOFF,
        crate::math::min_int(initial as int, MAX_BACKOFF as int) <= backoff(initial, retry_count),
        backoff(initial, retry_count) <= backoff(initial, (retry_count + 1) as u32),
{
    let times = crate::math::min_int(retry_count - 1, MAX_BACKOFF_DOUBLINGS as int) as nat;
    lemma_doubled_grows(initial as int, times);
    lemma_doubled_grows(initial as int, times + 1);
}

/// How long a retry waits.
fn compute_backoff(initial: u64, retry_count: u32) -> (r: u64)
    requires
        retry_count >= 1,
    ensures
        r == backoff(initial, retry_count),
{
    let times: u32 = if retry_count - 1 < MAX_BACKOFF_DOUBLINGS {
        retry_count - 1
    } else {
        MAX_BACKOFF_DOUBLINGS
    };
    let mut wait: u64 = initial;
    let mut done: u32 = 0;
    while done < times && wait <= MAX_BACKOFF
        invariant
            done <= times,
            doubled(wait as int, (times - done) as nat) == doubled(initial as int, times as nat),
        decreases times - done,
    {
        proof {
            lemma_doubled_first(wait as int, (times - done - 1) as nat);
        }
        wait = 2 * wait;
        done += 1;
    }
    proof {
        lemma_doubled_grows(wait as int, (times - done) as nat);
    }
    if wait > MAX_BACKOFF {
        MAX_BACKOFF
    } else {
        wait
    }
}

impl VaultDAO {
    /// Whether an execution that failed for a reason may succeed later.
    pub fn is_retryable_error(err: &VaultError) -> (r: bool)
        ensures
            r == is_passing(*err),
    {
        matches!(err, VaultError::InsufficientBalance | VaultError::ConditionsNotMet)
    }

    /// Schedules a retry of a failed execution, unless there were enough.
    pub fn schedule_retry(
        env: &mut Env,
        proposal_id: u64,
        retry_config: &RetryConfig,
        current_ledger: u64,
        err: &VaultError,
    ) -> (r: Result<(), VaultError>)
        requires
            old(env)@.retries(proposal_id).retry_count < u32::MAX,
            current_ledger + MAX_BACKOFF <= u64::MAX,
        ensures
            (final(env)@, r) == old(env)@.schedule_retry(
                proposal_id,
                *retry_config,
                current_ledger,
                *err,
            ),
    {
        let mut state = match storage::get_retry_state(env, proposal_id) {
            Some(state) => state,
            None => RetryState { retry_count: 0, next_retry_ledger: 0, last_retry_ledger: 0 },
        };
        state.retry_count += 1;
        if state.retry_count > retry_config.max_retries {
            env.publish(Event::RetriesExhausted { proposal_id, retry_count: state.retry_count });
            return Err(VaultError::RetryError);
        }
        let wait: u64 = compute_backoff(retry_config.initial_backoff_ledgers, state.retry_count);
        state.next_retry_ledger = current_ledger + wait;
        state.last_retry_ledger = current_ledger;
        storage::set_retry_state(env, proposal_id, &state);
        let error: u32 = if Self::is_retryable_error(err) {
            err.code()
        } else {
            0
        };
        env.publish(
            Event::RetryScheduled {
                proposal_id,
                retry_count: state.retry_count,
                next_ledger: state.next_retry_ledger,
                error,
            },
        );
        Ok(())
    }

    /// The retries of a proposal, if any is scheduled.
    pub fn get_retry_state(env: &Env, proposal_id: u64) -> (r: Option<RetryState>)
        ensures
            r == env@.retry_state(proposal_id),
    {
        storage::get_retry_state(env, proposal_id)
    }
}

} // verus!
