//! What holds of several proposals that are made or executed together.

use vstd::prelude::*;

use crate::batch_execution::BatchRun;
use crate::env::{Action, EnvModel, Ledger};
use crate::primitives::{Address, Symbol, BATCH_HALF};
use crate::types::{
    BatchStatus, ConfigModel, ExecutionAnswersModel, ProposalModel, ProposalStatus,
    TransferDetails, TransferRequestModel,
};

verus! {

/// Whether proposals exist and have a status.
pub open spec fn all_have_status(env: EnvModel, ids: Seq<u64>, status: ProposalStatus) -> bool {
    forall|i: int|
        0 <= i < ids.len() ==> env.proposals.records.contains_key(#[trigger] ids[i])
            && env.proposals.records[ids[i]].status == status
}

/// Whether the identifiers at some places of a list, in order, are the given ones.
pub open spec fn picked_at(ids: Seq<u64>, places: Seq<int>, picked: Seq<u64>) -> bool {
    &&& places.len() == picked.len()
    &&& forall|i: int|
        0 <= i < places.len() ==> 0 <= #[trigger] places[i] < ids.len() && ids[places[i]]
            == picked[i]
    &&& forall|i: int, j: int| 0 <= i < j < places.len() ==> places[i] < places[j]
}

/// Whether identifiers are some of a list, in the order of the list.
pub open spec fn picked_in_order(ids: Seq<u64>, picked: Seq<u64>) -> bool {
    exists|places: Seq<int>| picked_at(ids, places, picked)
}

/// Whether the proposals that became executed between two states are exactly the given ones, and
/// no others changed but those of several that have expired.
pub open spec fn newly_executed(
    before: EnvModel,
    after: EnvModel,
    ids: Seq<u64>,
    executed: Seq<u64>,
) -> bool {
    let old_records = before.proposals.records;
    let new_records = after.proposals.records;
    &&& new_records.dom() == old_records.dom()
    &&& forall|id: u64| #[trigger]
        executed.contains(id) ==> {
            &&& old_records.contains_key(id)
            &&& old_records[id].status == ProposalStatus::Approved
            &&& new_records[id].status == ProposalStatus::Executed
        }
    &&& forall|id: u64| #[trigger]
        old_records.contains_key(id) && !executed.contains(id) ==> {
            ||| new_records[id] == old_records[id]
            ||| ids.contains(id) && old_records[id].status == ProposalStatus::Approved
                && new_records[id].status == ProposalStatus::Expired
        }
}

/// What taking up a proposal of a batch makes of the stored proposals.
proof fn lemma_one_executed(
    env: EnvModel,
    config: ConfigModel,
    executor: Address,
    id: u64,
    answers: ExecutionAnswersModel,
)
    requires
        env.records_keyed(),
    ensures
        ({
            let (after, done) = env.execute_one(config, executor, id, answers);
            let before = env.proposals.records;
            let records = after.proposals.records;
            &&& after.records_keyed()
            &&& done ==> {
                &&& before.contains_key(id)
                &&& before[id].status == ProposalStatus::Approved
                &&& records == before.insert(id, records[id])
                &&& records[id].status == ProposalStatus::Executed
            }
            &&& !done ==> {
                ||| records == before
                ||| before.contains_key(id) && before[id].status == ProposalStatus::Approved
                    && records == before.insert(id, records[id]) && records[id].status
                    == ProposalStatus::Expired
            }
        }),
{
    reveal(EnvModel::executed_in_batch);
    if let Ok(proposal) = env.proposal(id) {
        assert(env.proposals.records.contains_key(id));
        crate::conditions::lemma_conditions_frame(env, proposal.conditions, answers.observations);
        let tested = if proposal.conditions.len() > 0 {
            env.evaluate(proposal, answers.observations).0
        } else {
            env
        };
        let executed = ProposalModel {
            gas_used: tested.execution_fee(proposal).total_fee,
            status: ProposalStatus::Executed,
            ..proposal
        };
        let paid = tested.act(
            Action::Transfer {
                token: proposal.token,
                to: proposal.recipient,
                amount: proposal.amount,
            },
        ).return_insurance(proposal).return_stake(proposal).with_proposal(
            executed,
        ).announce_execution(executor, executed);
        assert(paid.proposals.records == env.proposals.records.insert(id, executed));
        crate::execution::lemma_rewards_frame(
            paid.reward_proposer(proposal.proposer),
            proposal.approvals,
        );
        assert(tested.executed_in_batch(executor, proposal).proposals == paid.proposals);
    }
}

/// What executing several proposals, in order, makes of the stored proposals.
proof fn lemma_each_executed(
    env: EnvModel,
    config: ConfigModel,
    executor: Address,
    ids: Seq<u64>,
    answers: Seq<ExecutionAnswersModel>,
)
    requires
        env.records_keyed(),
    ensures
        ({
            let run = env.execute_each(config, executor, ids, answers);
            &&& run.env.records_keyed()
            &&& run.executed.len() + run.failed == ids.len()
            &&& run.executed.no_duplicates()
            &&& picked_in_order(ids, run.executed)
            &&& newly_executed(env, run.env, ids, run.executed)
        }),
    decreases ids.len(),
{
    let run = env.execute_each(config, executor, ids, answers);
    if ids.len() == 0 {
        assert(picked_at(ids, Seq::empty(), run.executed));
    } else {
        let rest = ids.drop_last();
        let id = ids.last();
        lemma_each_executed(env, config, executor, rest, answers);
        let before = env.execute_each(config, executor, rest, answers);
        lemma_one_executed(before.env, config, executor, id, answers[ids.len() - 1]);
        let places = choose|places: Seq<int>| picked_at(rest, places, before.executed);
        let done = run.executed.len() > before.executed.len();
        let more = places.push(ids.len() - 1);
        assert(run.env.proposals.records.dom() =~= env.proposals.records.dom());
        assert(ids =~= rest.push(id));
        if done {
            assert(picked_at(ids, more, run.executed));
            assert(!before.executed.contains(id));
        } else {
            assert(picked_at(ids, places, run.executed));
        }
        assert forall|other: u64| #[trigger] run.executed.contains(other) implies {
            &&& env.proposals.records.contains_key(other)
            &&& env.proposals.records[other].status == ProposalStatus::Approved
            &&& run.env.proposals.records[other].status == ProposalStatus::Executed
        } by {
            if done {
                crate::primitives::lemma_push_contains(before.executed, id, other);
            }
        }
        assert forall|other: u64| #[trigger]
            env.proposals.records.contains_key(other) && !run.executed.contains(other) implies {
            ||| run.env.proposals.records[other] == env.proposals.records[other]
            ||| ids.contains(other) && env.proposals.records[other].status
                == ProposalStatus::Approved && run.env.proposals.records[other].status
                == ProposalStatus::Expired
        } by {
            crate::primitives::lemma_push_contains(rest, id, other);
            if done {
                crate::primitives::lemma_push_contains(before.executed, id, other);
            }
        }
    }
}

/// Executing several proposals executes or fails each of them. Those that are reported as
/// executed are given in the order of the call and without repeats. They were approved and are
/// executed afterwards; no other proposal becomes executed, or changes but by expiring.
pub proof fn law_batches_account_for_every_proposal(
    env: EnvModel,
    executor: Address,
    ids: Seq<u64>,
    answers: Seq<ExecutionAnswersModel>,
)
    requires
        env.records_keyed(),
        env.batch_execute(executor, ids, answers).1 is Ok,
    ensures
        ({
            let (after, answer) = env.batch_execute(executor, ids, answers);
            let (executed, failed) = answer->Ok_0;
            &&& executed.len() + failed == ids.len()
            &&& executed.no_duplicates()
            &&& picked_in_order(ids, executed)
            &&& newly_executed(env, after, ids, executed)
        }),
{
    lemma_each_executed(env, env.config()->Ok_0, executor, ids, answers);
}

/// A run executes the first of its proposals, all of them where none fails.
proof fn lemma_run(env: EnvModel, executor: Address, ids: Seq<u64>, outcomes: Seq<bool>)
    requires
        env.records_keyed(),
    ensures
        ({
            let run = env.run_batch(executor, ids, outcomes);
            &&& run.env.records_keyed()
            &&& all_have_status(run.env, run.executed, ProposalStatus::Executed)
            &&& run.failed == 0 ==> run.executed == ids
            &&& run.failed <= 1
        }),
    decreases ids.len(),
{
    if ids.len() > 0 {
        let before = env.run_batch(executor, ids.drop_last(), outcomes);
        lemma_run(env, executor, ids.drop_last(), outcomes);
        let run = env.run_batch(executor, ids, outcomes);
        if before.failed == 0 && before.env.batch_item_ready(ids.last()) && outcomes[ids.len()
            - 1] {
            assert(run.executed =~= ids);
            assert forall|i: int| 0 <= i < run.executed.len() implies
                run.env.proposals.records.contains_key(#[trigger] run.executed[i])
                && run.env.proposals.records[run.executed[i]].status
                == ProposalStatus::Executed by {
                if i < before.executed.len() {
                    assert(run.executed[i] == before.executed[i]);
                }
            }
        }
    }
}

/// Proposals that are taken back are pending.
proof fn lemma_taken_back(env: EnvModel, ids: Seq<u64>)
    requires
        env.records_keyed(),
        forall|i: int|
            0 <= i < ids.len() ==> env.proposals.records.contains_key(#[trigger] ids[i]),
    ensures
        ({
            let (after, entries) = env.take_back_each(ids);
            &&& after.records_keyed()
            &&& after.proposals.records.dom() == env.proposals.records.dom()
            &&& all_have_status(after, ids, ProposalStatus::Pending)
            &&& entries.len() == ids.len()
        }),
    decreases ids.len(),
{
    if ids.len() > 0 {
        let rest = ids.drop_last();
        assert forall|i: int| 0 <= i < rest.len() implies env.proposals.records.contains_key(
            #[trigger] rest[i],
        ) by {
            assert(env.proposals.records.contains_key(ids[i]));
        }
        lemma_taken_back(env, rest);
        let (before, _) = env.take_back_each(rest);
        let (after, _) = env.take_back_each(ids);
        assert(env.proposals.records.contains_key(ids[ids.len() - 1]));
        assert(before.proposals.records.dom().contains(ids.last()));
        assert(after.proposals.records.dom() =~= env.proposals.records.dom());
        assert forall|i: int| 0 <= i < ids.len() implies after.proposals.records.contains_key(
            #[trigger] ids[i],
        ) && after.proposals.records[ids[i]].status == ProposalStatus::Pending by {
            if i < rest.len() {
                assert(before.proposals.records.contains_key(rest[i]));
            }
        }
    }
}

/// A recorded batch is executed as a whole or not at all: it is completed, and all of its
/// proposals are executed; or it is rolled back, and those of its proposals that had been
/// executed are pending again.
pub proof fn law_recorded_batches_are_all_or_nothing(
    env: EnvModel,
    executor: Address,
    batch_id: u64,
    outcomes: Seq<bool>,
)
    requires
        env.records_keyed(),
        env.proposal_batch(batch_id) matches Ok(batch) && batch.id == batch_id,
        env.execute_proposal_batch(executor, batch_id, outcomes).1 is Ok,
    ensures
        ({
            let batch = env.proposal_batch(batch_id)->Ok_0;
            let after = env.execute_proposal_batch(executor, batch_id, outcomes).0;
            let status = after.proposal_batch(batch_id)->Ok_0.status;
            let run = env.begun_batch(batch).run_batch(executor, batch.proposal_ids, outcomes);
            &&& after.proposal_batch(batch_id) is Ok
            &&& status == BatchStatus::Completed || status == BatchStatus::RolledBack
            &&& status == BatchStatus::Completed ==> all_have_status(
                after,
                batch.proposal_ids,
                ProposalStatus::Executed,
            )
            &&& status == BatchStatus::RolledBack ==> all_have_status(
                after,
                run.executed,
                ProposalStatus::Pending,
            )
        }),
{
    reveal(crate::batch_execution::finish_batch);
    let batch = env.proposal_batch(batch_id)->Ok_0;
    let begun = env.begun_batch(batch);
    let run: BatchRun = begun.run_batch(executor, batch.proposal_ids, outcomes);
    lemma_run(begun, executor, batch.proposal_ids, outcomes);
    lemma_taken_back(run.env, run.executed);
}

/// Proposals are stored under their own identifiers: at first there are none, and storing one
/// keeps it so.
pub proof fn law_proposals_are_found_by_their_identifiers(
    ledger: Ledger,
    env: EnvModel,
    proposal: ProposalModel,
)
    ensures
        EnvModel::fresh(ledger).records_keyed(),
        env.records_keyed() ==> env.with_proposal(proposal).records_keyed(),
{
}

/// Filing proposals leaves the treasury, the ledger and the configuration alone.
proof fn lemma_filed(
    env: EnvModel,
    config: ConfigModel,
    common: TransferRequestModel,
    transfers: Seq<TransferDetails>,
    shares: Seq<i128>,
)
    ensures
        env.file_each(config, common, transfers, shares).treasury == env.treasury,
        env.file_each(config, common, transfers, shares).ledger == env.ledger,
    decreases transfers.len(),
{
    if transfers.len() > 0 {
        lemma_filed(env, config, common, transfers.drop_last(), shares);
    }
}

/// Where no amount of several transfers is refused, each is positive and within the limit.
proof fn lemma_amounts_accepted(transfers: Seq<TransferDetails>, limit: i128)
    requires
        crate::batch_proposals::amounts_refusal(transfers, limit) is None,
    ensures
        forall|i: int|
            0 <= i < transfers.len() ==> 0 < (#[trigger] transfers[i]).amount <= limit,
    decreases transfers.len(),
{
    if transfers.len() > 0 {
        lemma_amounts_accepted(transfers.drop_last(), limit);
        assert forall|i: int| 0 <= i < transfers.len() implies 0 < (
        #[trigger] transfers[i]).amount <= limit by {
            if i < transfers.len() - 1 {
                assert(transfers.drop_last()[i] == transfers[i]);
            }
        }
    }
}

/// Several transfers are proposed together only by a treasurer or an admin, each for a positive
/// amount within the limit of a proposal, and only where what is reserved for the day and the
/// week, with all of them added, stays within their limits.
pub proof fn law_proposed_batches_stay_within_limits(
    env: EnvModel,
    common: TransferRequestModel,
    transfers: Seq<TransferDetails>,
)
    requires
        env.batch_propose_fits(
            common.proposer,
            transfers,
            common.priority,
            common.insurance_amount,
        ),
        env.batch_propose(common, transfers).1 is Ok,
    ensures
        ({
            let (after, ids) = env.batch_propose(common, transfers);
            let config = env.config()->Ok_0;
            let total = crate::batch_proposals::batch_total(transfers);
            let day = env.day_number();
            let week = env.week_number();
            &&& env.may_propose(common.proposer)
            &&& ids->Ok_0.len() == transfers.len() <= crate::constants::MAX_BATCH_SIZE
            &&& forall|i: int|
                0 <= i < transfers.len() ==> 0 < (#[trigger] transfers[i]).amount
                    <= config.spending_limit
            &&& after.daily_spent(day) == env.daily_spent(day) + total <= config.daily_limit
            &&& after.weekly_spent(week) == env.weekly_spent(week) + total <= config.weekly_limit
        }),
{
    reveal(EnvModel::create_batch);
    let config = env.config()->Ok_0;
    let counted = env.count_velocity(common.proposer, config.velocity_limit);
    let total = crate::batch_proposals::batch_total(transfers);
    lemma_amounts_accepted(transfers, config.spending_limit);
    crate::batch_proposals::lemma_batch_total_grows(transfers, 0);
    let insurance = env.settled_insurance(
        total as i128,
        env.reputation(common.proposer).score,
        common.insurance_amount,
    )->Ok_0;
    let shares = crate::batch_proposals::insurance_shares(insurance, transfers.len());
    let collected = if transfers.len() > 0 {
        counted.collect(transfers[0].token, common.proposer, insurance)
    } else {
        counted
    };
    lemma_filed(collected.reserve_spending(total as i128), config, common, transfers, shares);
}

/// The insurance that several proposals record together.
pub open spec fn recorded_insurance(env: EnvModel, ids: Seq<u64>) -> int
    decreases ids.len(),
{
    if ids.len() == 0 {
        0
    } else {
        recorded_insurance(env, ids.drop_last())
            + env.proposals.records[ids.last()].insurance_amount
    }
}

/// Amounts added up.
pub open spec fn sum_of(amounts: Seq<i128>) -> int
    decreases amounts.len(),
{
    if amounts.len() == 0 {
        0
    } else {
        sum_of(amounts.drop_last()) + amounts.last()
    }
}

/// The first of several shares, of which none is the last, are equal.
proof fn lemma_equal_shares(insurance: i128, count: nat, k: nat)
    requires
        insurance >= 0,
        k < count,
    ensures
        sum_of(crate::batch_proposals::insurance_shares(insurance, count).take(k as int)) == k * (
        insurance as int / count as int),
    decreases k,
{
    let shares = crate::batch_proposals::insurance_shares(insurance, count);
    let share = insurance as int / count as int;
    crate::batch_proposals::lemma_shares_fit(insurance as int, count as int);
    if k > 0 {
        lemma_equal_shares(insurance, count, (k - 1) as nat);
        assert(shares.take(k as int).drop_last() =~= shares.take(k - 1));
        crate::batch_proposals::lemma_share_left(share, k - 1, count as int);
        assert(share <= count * share) by (nonlinear_arith)
            requires
                share >= 0,
                count >= 1,
        ;
        assert(shares[k - 1] == share);
    } else {
        assert(0 * share == 0);
    }
}

/// The shares of an insurance make up the whole.
proof fn lemma_shares_sum(insurance: i128, count: nat)
    requires
        insurance >= 0,
        count > 0,
    ensures
        sum_of(crate::batch_proposals::insurance_shares(insurance, count)) == insurance,
{
    let shares = crate::batch_proposals::insurance_shares(insurance, count);
    let share = insurance as int / count as int;
    crate::batch_proposals::lemma_shares_fit(insurance as int, count as int);
    crate::batch_proposals::lemma_share_left(share, count - 1, count as int);
    lemma_equal_shares(insurance, count, (count - 1) as nat);
    assert(shares.drop_last() =~= shares.take(count - 1));
}

/// What filing proposals stores: one after the other, each with its share.
proof fn lemma_filed_records(
    env: EnvModel,
    config: ConfigModel,
    common: TransferRequestModel,
    transfers: Seq<TransferDetails>,
    shares: Seq<i128>,
)
    requires
        env.proposals.next_id + transfers.len() <= u64::MAX,
        transfers.len() <= shares.len(),
    ensures
        ({
            let after = env.file_each(config, common, transfers, shares);
            let first = env.proposals.next_id;
            &&& after.proposals.next_id == first + transfers.len()
            &&& forall|i: int|
                0 <= i < transfers.len() ==> {
                    let record = #[trigger] after.proposals.records[(first + i) as u64];
                    &&& record.insurance_amount == shares[i]
                    &&& record.memo == Symbol::spec_short(BATCH_HALF)
                    &&& record.amount == transfers[i].amount
                }
            &&& after.actions.len() >= env.actions.len()
            &&& forall|i: int|
                0 <= i < env.actions.len() ==> #[trigger] after.actions[i] == env.actions[i]
        }),
    decreases transfers.len(),
{
    if transfers.len() > 0 {
        let rest = transfers.drop_last();
        lemma_filed_records(env, config, common, rest, shares);
        let before = env.file_each(config, common, rest, shares);
        let after = env.file_each(config, common, transfers, shares);
        let first = env.proposals.next_id;
        assert forall|i: int| 0 <= i < transfers.len() implies {
            let record = #[trigger] after.proposals.records[(first + i) as u64];
            &&& record.insurance_amount == shares[i]
            &&& record.memo == Symbol::spec_short(BATCH_HALF)
            &&& record.amount == transfers[i].amount
        } by {
            if i < rest.len() {
                assert(rest[i] == transfers[i]);
                assert(after.proposals.records[(first + i) as u64]
                    == before.proposals.records[(first + i) as u64]);
            }
        }
        assert forall|i: int| 0 <= i < env.actions.len() implies #[trigger] after.actions[i]
            == env.actions[i] by {
            assert(before.actions[i] == env.actions[i]);
        }
    }
}

/// Proposals that record shares record together what the shares sum up to.
proof fn lemma_recorded_sum(env: EnvModel, first: u64, shares: Seq<i128>)
    requires
        first + shares.len() <= u64::MAX,
        forall|i: int|
            0 <= i < shares.len() ==> (#[trigger] env.proposals.records[(first
                + i) as u64]).insurance_amount == shares[i],
    ensures
        recorded_insurance(env, crate::batch_proposals::ids_from(first, shares.len())) == sum_of(
            shares,
        ),
    decreases shares.len(),
{
    if shares.len() > 0 {
        let ids = crate::batch_proposals::ids_from(first, shares.len());
        let n = shares.len() - 1;
        assert(ids.drop_last() =~= crate::batch_proposals::ids_from(first, n as nat));
        assert forall|i: int| 0 <= i < n implies (#[trigger] env.proposals.records[(first
            + i) as u64]).insurance_amount == shares.drop_last()[i] by {
            assert(shares[i] == shares.drop_last()[i]);
        }
        lemma_recorded_sum(env, first, shares.drop_last());
        assert(env.proposals.records[(first + n) as u64].insurance_amount == shares[n]);
    }
}

/// What several proposals record as insurance adds up to the insurance that is collected for
/// all of them, and each proposal pays what its transfer says and is marked as part of a batch.
pub proof fn law_batch_insurance_adds_up(
    env: EnvModel,
    common: TransferRequestModel,
    transfers: Seq<TransferDetails>,
)
    requires
        env.batch_propose_fits(
            common.proposer,
            transfers,
            common.priority,
            common.insurance_amount,
        ),
        env.batch_propose(common, transfers).1 is Ok,
    ensures
        ({
            let (after, ids) = env.batch_propose(common, transfers);
            let insurance = crate::math::max_int(common.insurance_amount as int, 0);
            &&& recorded_insurance(after, ids->Ok_0) == insurance
            &&& insurance > 0 ==> after.actions[env.actions.len() as int]
                == (Action::TransferToVault {
                token: transfers[0].token,
                from: common.proposer,
                amount: common.insurance_amount,
            })
            &&& forall|i: int|
                0 <= i < transfers.len() ==> {
                    let record = #[trigger] after.proposals.records[(env.proposals.next_id
                        + i) as u64];
                    &&& record.memo == Symbol::spec_short(BATCH_HALF)
                    &&& record.amount == transfers[i].amount
                }
        }),
{
    reveal(EnvModel::create_batch);
    let config = env.config()->Ok_0;
    let counted = env.count_velocity(common.proposer, config.velocity_limit);
    let total = crate::batch_proposals::batch_total(transfers);
    let score = env.reputation(common.proposer).score;
    crate::batch_proposals::lemma_batch_total_grows(transfers, 0);
    crate::batch_proposals::lemma_insurance_settled(
        env,
        total as i128,
        score,
        common.insurance_amount,
    );
    let insurance = env.settled_insurance(total as i128, score, common.insurance_amount)->Ok_0;
    let shares = crate::batch_proposals::insurance_shares(insurance, transfers.len());
    let collected = if transfers.len() > 0 {
        counted.collect(transfers[0].token, common.proposer, insurance)
    } else {
        counted
    };
    let reserved = collected.reserve_spending(total as i128);
    lemma_filed_records(reserved, config, common, transfers, shares);
    let (after, ids) = env.batch_propose(common, transfers);
    let filed = reserved.file_each(config, common, transfers, shares);
    assert(after.proposals.records == filed.proposals.records);
    if transfers.len() > 0 {
        lemma_shares_sum(insurance, transfers.len());
        lemma_recorded_sum(after, env.proposals.next_id, shares);
        if insurance > 0 {
            assert(reserved.actions[env.actions.len() as int] == (Action::TransferToVault {
                token: transfers[0].token,
                from: common.proposer,
                amount: insurance,
            }));
        }
    }
}

} // verus!
