//! Batches of operations that are checked against the daily limit one after the other, and the
//! reversal of executed transfers.

use vstd::prelude::*;

use crate::env::{Action, Env, EnvModel, Event};
use crate::errors::VaultError;
use crate::math::sum_exceeds;
use crate::primitives::{Address, Symbol};
use crate::proposals::Outcome;
use crate::storage;
use crate::types::{
    BatchExecutionResult, BatchOperation, BatchStatus, BatchTransaction, BatchTransactionModel,
    Config, Role,
};
use crate::VaultDAO;

verus! {

/// Operations that one batch can hold.
pub const MAX_BATCH_OPS: usize = 32;

/// Gas that a batch takes without its operations.
pub const BATCH_BASE_GAS: u64 = 100_000;

/// Gas that one operation of a batch takes.
pub const BATCH_OPERATION_GAS: u64 = 50_000;

/// Whether every operation pays something.
pub open spec fn operations_pay(operations: Seq<BatchOperation>) -> bool {
    forall|i: int| 0 <= i < operations.len() ==> (#[trigger] operations[i]).amount > 0
}

/// What operations pay together.
pub open spec fn operations_total(operations: Seq<BatchOperation>) -> int
    decreases operations.len(),
{
    if operations.len() == 0 {
        0
    } else {
        operations_total(operations.drop_last()) + operations.last().amount
    }
}

/// How running operations ended: the state, whom was paid what, and whether all were run.
pub ghost struct OperationsRun {
    pub env: EnvModel,
    pub paid: Seq<(Address, i128)>,
    pub complete: bool,
}

impl EnvModel {
    /// What running operations in order leads to. The first that would exceed the daily limit
    /// stops the run.
    pub open spec fn run_operations(self, operations: Seq<BatchOperation>, limit: i128) -> 
        OperationsRun
        decreases operations.len(),
    {
        if operations.len() == 0 {
            OperationsRun { env: self, paid: Seq::empty(), complete: true }
        } else {
            let before = self.run_operations(operations.drop_last(), limit);
            let op = operations.last();
            let today = self.day_number();
            if !before.complete {
                before
            } else if before.env.daily_spent(today) + op.amount > limit {
                OperationsRun { complete: false, ..before }
            } else {
                OperationsRun {
                    env: before.env.add_daily_spent(today, op.amount),
                    paid: before.paid.push((op.recipient, op.amount)),
                    complete: true,
                }
            }
        }
    }

    /// The state after payments of a batch were rolled back, the last one first: each gives the
    /// spending of the day back.
    pub open spec fn rollback_batch(self, paid: Seq<(Address, i128)>) -> EnvModel
        decreases paid.len(),
    {
        if paid.len() == 0 {
            self
        } else {
            self.reduce_daily_spent(self.day_number(), paid.last().1).rollback_batch(
                paid.drop_last(),
            )
        }
    }

    /// What creating a batch leaves behind.
    pub open spec fn open_batch(
        self,
        creator: Address,
        operations: Seq<BatchOperation>,
        memo: Symbol,
    ) -> Outcome<u64> {
        let id = (self.programs.last_batch_id + 1) as u64;
        if operations.len() == 0 || operations.len() > MAX_BATCH_OPS {
            (self, Err(VaultError::BatchTooLarge))
        } else if !operations_pay(operations) {
            (self, Err(VaultError::InvalidAmount))
        } else {
            (
                self.bump_batch_id().with_batch(
                    BatchTransactionModel {
                        id,
                        creator,
                        operations,
                        status: BatchStatus::Pending,
                        created_at: self.ledger.timestamp,
                        memo,
                    },
                ),
                Ok(id),
            )
        }
    }

    /// The state after a batch was run, and its result.
    #[verifier::opaque]
    pub open spec fn finish_batch(
        self,
        executor: Address,
        batch_id: u64,
        batch: BatchTransactionModel,
        limit: i128,
    ) -> Outcome<BatchExecutionResult> {
        let started = self.with_batch(
            BatchTransactionModel { status: BatchStatus::Executing, ..batch },
        );
        let run = started.run_operations(batch.operations, limit);
        let failed = (batch.operations.len() - run.paid.len()) as u32;
        let result = BatchExecutionResult {
            batch_id,
            success: run.complete,
            successful_ops: run.paid.len() as u32,
            failed_ops: failed,
        };
        let ended = if run.complete {
            run.env
        } else {
            run.env.rollback_batch(run.paid)
        };
        let recorded = ended.with_batch(
            BatchTransactionModel {
                status: if run.complete {
                    BatchStatus::Completed
                } else {
                    BatchStatus::RolledBack
                },
                ..batch
            },
        ).with_batch_result(result);
        let kept = if run.complete {
            recorded
        } else {
            recorded.with_rollback_state(batch_id, run.paid)
        };
        (
            kept.publish(
                Event::BatchExecuted { executor, executed: run.paid.len() as u32, failed },
            ),
            Ok(result),
        )
    }

    /// What executing a batch leaves behind.
    pub open spec fn execute_batch(self, executor: Address, batch_id: u64) -> Outcome<
        BatchExecutionResult,
    > {
        match self.config() {
            Err(error) => (self, Err(error)),
            Ok(config) => if self.role(executor) != Role::Admin && self.role(executor)
                != Role::Treasurer {
                (self, Err(VaultError::InsufficientRole))
            } else {
                match self.batch(batch_id) {
                    Err(error) => (self, Err(error)),
                    Ok(batch) => if batch.status != BatchStatus::Pending {
                        (self, Err(VaultError::ProposalNotPending))
                    } else {
                        self.finish_batch(executor, batch_id, batch, config.daily_limit)
                    },
                }
            },
        }
    }

    /// What reversing an executed transfer leaves behind.
    pub open spec fn rollback_execution(self, admin: Address, proposal_id: u64) -> Outcome<()> {
        if self.role(admin) != Role::Admin {
            (self, Err(VaultError::InsufficientRole))
        } else {
            match self.snapshot(proposal_id) {
                None => (self, Err(VaultError::ProposalNotFound)),
                Some(snapshot) => (
                    self.act(
                        Action::TransferToVault {
                            token: snapshot.proposal.token,
                            from: snapshot.proposal.recipient,
                            amount: snapshot.proposal.amount,
                        },
                    ).without_snapshot(proposal_id),
                    Ok(()),
                ),
            }
        }
    }

    /// Whether a batch, where there is one, can have been created.
    pub open spec fn batch_fits(self, batch_id: u64) -> bool {
        self.batch(batch_id) matches Ok(batch) ==> operations_pay(batch.operations)
            && batch.operations.len() <= MAX_BATCH_OPS
    }
}

/// A run that stopped stays stopped.
proof fn lemma_run_stops(env: EnvModel, operations: Seq<BatchOperation>, limit: i128, k: int)
    requires
        0 <= k <= operations.len(),
        !env.run_operations(operations.take(k), limit).complete,
    ensures
        env.run_operations(operations, limit) == env.run_operations(operations.take(k), limit),
    decreases operations.len(),
{
    if k == operations.len() {
        assert(operations.take(k) =~= operations);
    } else {
        assert(operations.drop_last().take(k) =~= operations.take(k));
        lemma_run_stops(env, operations.drop_last(), limit, k);
    }
}

/// A run changes what was spent today and nothing else.
proof fn lemma_run_spends(env: EnvModel, operations: Seq<BatchOperation>, limit: i128)
    requires
        operations_pay(operations),
    ensures
        ({
            let run = env.run_operations(operations, limit);
            let spent = run.env.daily_spent(env.day_number()) - env.daily_spent(env.day_number());
            &&& run.env.ledger == env.ledger
            &&& run.paid.len() <= operations.len()
            &&& run.complete <==> run.paid.len() == operations.len()
            &&& spent == operations_total(operations.take(run.paid.len() as int))
            &&& spent >= 0
            &&& run.paid.len() > 0 ==> run.env.daily_spent(env.day_number()) <= limit
        }),
    decreases operations.len(),
{
    if operations.len() > 0 {
        assert forall|i: int| 0 <= i < operations.drop_last().len() implies (
        #[trigger] operations.drop_last()[i]).amount > 0 by {
            assert(operations[i].amount > 0);
        }
        lemma_run_spends(env, operations.drop_last(), limit);
        let before = env.run_operations(operations.drop_last(), limit);
        let run = env.run_operations(operations, limit);
        if run.paid.len() == operations.len() {
            assert(operations.drop_last().take(before.paid.len() as int)
                =~= operations.drop_last());
            assert(operations.take(run.paid.len() as int) =~= operations);
            assert(operations[operations.len() - 1].amount > 0);
        } else {
            assert(operations.drop_last().take(before.paid.len() as int) =~= operations.take(
                run.paid.len() as int,
            ));
        }
    } else {
        assert(operations.take(0) =~= operations);
    }
}

/// A batch never spends beyond the daily limit: where it pays anything, what was spent that day
/// stays within the limit and grows by exactly what was paid.
pub proof fn law_batches_keep_the_daily_limit(
    env: EnvModel,
    operations: Seq<BatchOperation>,
    limit: i128,
)
    requires
        operations_pay(operations),
    ensures
        ({
            let run = env.run_operations(operations, limit);
            &&& run.env.daily_spent(env.day_number()) == env.daily_spent(env.day_number())
                + operations_total(operations.take(run.paid.len() as int))
            &&& run.paid.len() > 0 ==> run.env.daily_spent(env.day_number()) <= limit
        }),
{
    lemma_run_spends(env, operations, limit);
}

/// A batch is completed exactly when all its operations together fit the daily limit.
pub proof fn law_batches_complete_when_they_fit(
    env: EnvModel,
    operations: Seq<BatchOperation>,
    limit: i128,
)
    requires
        operations_pay(operations),
        operations.len() > 0,
    ensures
        env.run_operations(operations, limit).complete <==> env.daily_spent(env.day_number())
            + operations_total(operations) <= limit,
{
    lemma_run_spends(env, operations, limit);
    let run = env.run_operations(operations, limit);
    if run.complete {
        assert(operations.take(run.paid.len() as int) =~= operations);
    } else {
        let k = run.paid.len() as int;
        lemma_run_stop_reason(env, operations, limit);
        lemma_total_grows(operations, k + 1);
        assert(operations.take(k + 1).drop_last() =~= operations.take(k));
    }
}

/// A run stops where the next operation would exceed the limit.
proof fn lemma_run_stop_reason(env: EnvModel, operations: Seq<BatchOperation>, limit: i128)
    requires
        operations_pay(operations),
        !env.run_operations(operations, limit).complete,
    ensures
        ({
            let run = env.run_operations(operations, limit);
            &&& run.paid.len() < operations.len()
            &&& run.env.daily_spent(env.day_number()) + operations[run.paid.len() as int].amount
                > limit
        }),
    decreases operations.len(),
{
    let rest = operations.drop_last();
    assert forall|i: int| 0 <= i < rest.len() implies (#[trigger] rest[i]).amount > 0 by {
        assert(operations[i].amount > 0);
    }
    lemma_run_spends(env, rest, limit);
    if !env.run_operations(rest, limit).complete {
        lemma_run_stop_reason(env, rest, limit);
    }
}

/// More operations pay more.
proof fn lemma_total_grows(operations: Seq<BatchOperation>, k: int)
    requires
        operations_pay(operations),
        0 <= k <= operations.len(),
    ensures
        operations_total(operations.take(k)) <= operations_total(operations),
    decreases operations.len(),
{
    if k == operations.len() {
        assert(operations.take(k) =~= operations);
    } else {
        let rest = operations.drop_last();
        assert forall|i: int| 0 <= i < rest.len() implies (#[trigger] rest[i]).amount > 0 by {
            assert(operations[i].amount > 0);
        }
        assert(rest.take(k) =~= operations.take(k));
        assert(operations[operations.len() - 1].amount > 0);
        lemma_total_grows(rest, k);
    }
}

/// Rolling back what a run paid brings the spending of the day back to what it was.
proof fn lemma_rolled_back(env: EnvModel, operations: Seq<BatchOperation>, limit: i128)
    requires
        operations_pay(operations),
        env.daily_spent(env.day_number()) >= 0,
    ensures
        ({
            let run = env.run_operations(operations, limit);
            let after = run.env.rollback_batch(run.paid);
            &&& after.ledger == env.ledger
            &&& after.daily_spent(env.day_number()) == env.daily_spent(env.day_number())
        }),
    decreases operations.len(),
{
    if operations.len() > 0 {
        let rest = operations.drop_last();
        assert forall|i: int| 0 <= i < rest.len() implies (#[trigger] rest[i]).amount > 0 by {
            assert(operations[i].amount > 0);
        }
        lemma_rolled_back(env, rest, limit);
        lemma_run_spends(env, rest, limit);
        let before = env.run_operations(rest, limit);
        let run = env.run_operations(operations, limit);
        let op = operations.last();
        assert(operations[operations.len() - 1].amount > 0);
        if before.complete && run.complete {
            let day = env.day_number();
            assert(run.paid.drop_last() =~= before.paid);
            let undone = run.env.reduce_daily_spent(day, op.amount);
            assert(undone.daily_spent(day) == before.env.daily_spent(day));
            lemma_rollback_frame(undone, before.env, before.paid);
        }
    }
}

/// What rolling payments back makes of the spending of the day depends on that spending alone.
proof fn lemma_rollback_frame(a: EnvModel, b: EnvModel, paid: Seq<(Address, i128)>)
    requires
        a.ledger == b.ledger,
        a.daily_spent(a.day_number()) == b.daily_spent(b.day_number()),
    ensures
        a.rollback_batch(paid).ledger == b.rollback_batch(paid).ledger,
        a.rollback_batch(paid).daily_spent(a.day_number()) == b.rollback_batch(paid).daily_spent(
            b.day_number(),
        ),
    decreases paid.len(),
{
    if paid.len() > 0 {
        let day = a.day_number();
        lemma_rollback_frame(
            a.reduce_daily_spent(day, paid.last().1),
            b.reduce_daily_spent(day, paid.last().1),
            paid.drop_last(),
        );
    }
}

/// A batch is atomic: one that does not complete leaves the spending of the day as it was.
pub proof fn law_rolled_back_batches_spend_nothing(
    env: EnvModel,
    executor: Address,
    batch_id: u64,
)
    requires
        env.batch_fits(batch_id),
        env.daily_spent(env.day_number()) >= 0,
        env.execute_batch(executor, batch_id).1 matches Ok(result) && !result.success,
    ensures
        env.execute_batch(executor, batch_id).0.daily_spent(env.day_number()) == env.daily_spent(
            env.day_number(),
        ),
{
    reveal(EnvModel::finish_batch);
    let batch = env.batch(batch_id)->Ok_0;
    let started = env.with_batch(BatchTransactionModel { status: BatchStatus::Executing, ..batch });
    lemma_rolled_back(started, batch.operations, env.config()->Ok_0.daily_limit);
}

/// Whether every operation pays something.
fn check_operations(operations: &Vec<BatchOperation>) -> (r: Result<(), VaultError>)
    ensures
        r == (if operations_pay(operations@) {
            Ok::<(), VaultError>(())
        } else {
            Err(VaultError::InvalidAmount)
        }),
{
    let mut i: usize = 0;
    while i < operations.len()
        invariant
            i <= operations.len(),
            forall|j: int| 0 <= j < i ==> (#[trigger] operations@[j]).amount > 0,
        decreases operations.len() - i,
    {
        let op = operations[i];
        VaultDAO::validate_batch_operation(&op)?;
        i += 1;
    }
    Ok(())
}

/// Runs operations in order, and lists whom was paid what. The first operation that would
/// exceed the daily limit stops the run.
fn run_operations(
    env: &mut Env,
    operations: &Vec<BatchOperation>,
    config: &Config,
    rollback_state: &mut Vec<(Address, i128)>,
) -> (complete: bool)
    requires
        operations_pay(operations@),
        old(rollback_state)@.len() == 0,
    ensures
        ({
            let run = old(env)@.run_operations(operations@, config.daily_limit);
            &&& final(env)@ == run.env
            &&& final(rollback_state)@ == run.paid
            &&& complete == run.complete
        }),
{
    let ghost start = env@;
    let mut i: usize = 0;
    while i < operations.len()
        invariant
            i <= operations.len(),
            start == old(env)@,
            operations_pay(operations@),
            ({
                let run = start.run_operations(operations@.take(i as int), config.daily_limit);
                &&& env@ == run.env
                &&& rollback_state@ == run.paid
                &&& run.complete
            }),
            env@.ledger == start.ledger,
        decreases operations.len() - i,
    {
        let op = operations[i];
        assert(operations@.take(i + 1).drop_last() =~= operations@.take(i as int));
        assert(operations@[i as int].amount > 0);
        match VaultDAO::execute_batch_operation(env, &op, rollback_state, config) {
            Ok(()) => {},
            Err(_) => {
                proof {
                    lemma_run_stops(start, operations@, config.daily_limit, i + 1);
                }
                return false;
            },
        }
        i += 1;
    }
    assert(operations@.take(operations@.len() as int) =~= operations@);
    true
}

/// Runs a batch and records how it ended.
fn finish_batch(
    env: &mut Env,
    executor: Address,
    batch_id: u64,
    pending: BatchTransaction,
    config: &Config,
) -> (r: Result<BatchExecutionResult, VaultError>)
    requires
        operations_pay(pending@.operations),
        pending@.operations.len() <= MAX_BATCH_OPS,
    ensures
        (final(env)@, r) == old(env)@.finish_batch(
            executor,
            batch_id,
            pending@,
            config.daily_limit,
        ),
{
    reveal(EnvModel::finish_batch);
    let mut batch = pending;
    batch.status = BatchStatus::Executing;
    storage::set_batch(env, &batch);
    proof {
        lemma_run_spends(env@, batch@.operations, config.daily_limit);
    }
    let mut rollback_state: Vec<(Address, i128)> = Vec::new();
    let success = run_operations(env, &batch.operations, config, &mut rollback_state);
    if !success {
        VaultDAO::rollback_batch(env, &rollback_state);
    }
    batch.status = if success {
        BatchStatus::Completed
    } else {
        BatchStatus::RolledBack
    };
    storage::set_batch(env, &batch);
    let executed: u32 = rollback_state.len() as u32;
    let failed: u32 = (batch.operations.len() - rollback_state.len()) as u32;
    let result = BatchExecutionResult {
        batch_id,
        success,
        successful_ops: executed,
        failed_ops: failed,
    };
    storage::set_batch_result(env, &result);
    if !success {
        storage::set_rollback_state(env, batch_id, &rollback_state);
    }
    env.publish(Event::BatchExecuted { executor, executed, failed });
    Ok(result)
}

impl VaultDAO {
    /// Creates a batch of 1 to 32 operations, each of which pays something.
    pub fn create_batch(
        env: &mut Env,
        creator: Address,
        operations: Vec<BatchOperation>,
        memo: Symbol,
    ) -> (r: Result<u64, VaultError>)
        requires
            old(env)@.authorized(creator),
            old(env)@.has_room(),
        ensures
            (final(env)@, r) == old(env)@.open_batch(creator, operations@, memo),
    {
        if operations.len() == 0 || operations.len() > MAX_BATCH_OPS {
            return Err(VaultError::BatchTooLarge);
        }
        check_operations(&operations)?;
        let batch_id: u64 = storage::increment_batch_id(env);
        let batch = BatchTransaction {
            id: batch_id,
            creator,
            operations,
            status: BatchStatus::Pending,
            created_at: env.ledger.timestamp,
            memo,
        };
        storage::set_batch(env, &batch);
        Ok(batch_id)
    }

    /// Runs a pending batch, as a whole or not at all: where an operation fails, the earlier
    /// ones are rolled back. Treasurers and admins may.
    pub fn execute_batch(env: &mut Env, executor: Address, batch_id: u64) -> (r: Result<
        BatchExecutionResult,
        VaultError,
    >)
        requires
            old(env)@.authorized(executor),
            old(env)@.batch_fits(batch_id),
        ensures
            (final(env)@, r) == old(env)@.execute_batch(executor, batch_id),
    {
        let config = storage::get_config(env)?;
        let role = storage::get_role(env, &executor);
        if role != Role::Admin && role != Role::Treasurer {
            return Err(VaultError::InsufficientRole);
        }
        let batch = storage::get_batch(env, batch_id)?;
        if batch.status != BatchStatus::Pending {
            return Err(VaultError::ProposalNotPending);
        }
        finish_batch(env, executor, batch_id, batch, &config)
    }

    /// The outcome of a batch.
    pub fn get_batch_result(env: &Env, batch_id: u64) -> (r: Result<
        BatchExecutionResult,
        VaultError,
    >)
        ensures
            r == env@.batch_result(batch_id),
    {
        storage::get_batch_result(env, batch_id)
    }

    /// The batch with an identifier.
    pub fn get_batch(env: &Env, batch_id: u64) -> (r: Result<BatchTransaction, VaultError>)
        ensures
            crate::errors::res_view(r) == env@.batch(batch_id),
    {
        storage::get_batch(env, batch_id)
    }

    /// Reverses an executed transfer: takes the amount back from its recipient and forgets the
    /// snapshot of the execution. Only admins may.
    pub fn rollback_execution(env: &mut Env, admin: Address, proposal_id: u64) -> (r: Result<
        (),
        VaultError,
    >)
        requires
            old(env)@.authorized(admin),
        ensures
            (final(env)@, r) == old(env)@.rollback_execution(admin, proposal_id),
    {
        if storage::get_role(env, &admin) != Role::Admin {
            return Err(VaultError::InsufficientRole);
        }
        let snapshot = match storage::get_execution_snapshot(env, proposal_id) {
            Some(found) => found,
            None => return Err(VaultError::ProposalNotFound),
        };
        env.act(
            Action::TransferToVault {
                token: snapshot.proposal.token,
                from: snapshot.proposal.recipient,
                amount: snapshot.proposal.amount,
            },
        );
        storage::remove_execution_snapshot(env, proposal_id);
        Ok(())
    }

    /// Checks that an operation pays something.
    pub fn validate_batch_operation(op: &BatchOperation) -> (r: Result<(), VaultError>)
        ensures
            r == (if op.amount > 0 {
                Ok::<(), VaultError>(())
            } else {
                Err(VaultError::InvalidAmount)
            }),
    {
        if op.amount <= 0 {
            return Err(VaultError::InvalidAmount);
        }
        Ok(())
    }

    /// Runs one operation within the daily limit, and adds it to the list of payments.
    pub fn execute_batch_operation(
        env: &mut Env,
        op: &BatchOperation,
        rollback_state: &mut Vec<(Address, i128)>,
        config: &Config,
    ) -> (r: Result<(), VaultError>)
        requires
            op.amount > 0,
        ensures
            ({
                let today = old(env)@.day_number();
                if old(env)@.daily_spent(today) + op.amount > config.daily_limit {
                    &&& r == Err::<(), _>(VaultError::ExceedsDailyLimit)
                    &&& final(env)@ == old(env)@
                    &&& final(rollback_state)@ == old(rollback_state)@
                } else {
                    &&& r == Ok::<(), VaultError>(())
                    &&& final(env)@ == old(env)@.add_daily_spent(today, op.amount)
                    &&& final(rollback_state)@ == old(rollback_state)@.push(
                        (op.recipient, op.amount),
                    )
                }
            }),
    {
        let today: u64 = storage::get_day_number(env);
        let daily_spent: i128 = storage::get_daily_spent(env, today);
        if sum_exceeds(daily_spent, op.amount, config.daily_limit) {
            return Err(VaultError::ExceedsDailyLimit);
        }
        rollback_state.push((op.recipient, op.amount));
        storage::add_daily_spent(env, today, op.amount);
        Ok(())
    }

    /// Rolls payments of a batch back, the last one first.
    pub fn rollback_batch(env: &mut Env, rollback_state: &Vec<(Address, i128)>)
        ensures
            final(env)@ == old(env)@.rollback_batch(rollback_state@),
    {
        let ghost start = env@;
        let today: u64 = storage::get_day_number(env);
        let mut left: usize = rollback_state.len();
        assert(rollback_state@.take(left as int) =~= rollback_state@);
        while left > 0
            invariant
                left <= rollback_state.len(),
                start == old(env)@,
                today == env@.day_number(),
                env@.rollback_batch(rollback_state@.take(left as int)) == start.rollback_batch(
                    rollback_state@,
                ),
            decreases left,
        {
            assert(rollback_state@.take(left as int).drop_last() =~= rollback_state@.take(
                left - 1,
            ));
            storage::reduce_daily_spent(env, today, rollback_state[left - 1].1);
            left -= 1;
        }
    }

    /// The gas that a batch takes.
    pub fn estimate_batch_gas(operations: &Vec<BatchOperation>) -> (r: u64)
        requires
            BATCH_BASE_GAS + operations@.len() * BATCH_OPERATION_GAS <= u64::MAX,
        ensures
            r == BATCH_BASE_GAS + operations@.len() * BATCH_OPERATION_GAS,
    {
        BATCH_BASE_GAS + operations.len() as u64 * BATCH_OPERATION_GAS
    }
}

} // verus!
