//! What holds of funds when proposals are voted on, expire, or are proposed and executed together.

use vstd::prelude::*;

use crate::batch_execution::BatchRun;
use crate::books::{
    is_treasurer, ledger_of, listed, most, moved, movements, spent_this_week, spent_today,
};
use crate::decision_laws::{approvals_suffice, cast, percentages_valid, votes_suffice};
use crate::env::{Action, EnvModel};
use crate::errors::VaultError;
use crate::primitives::Address;
use crate::proposal_laws::{collected, inside_window, least_insurance, reservation_freed};
use crate::transfer_laws::{conditions_allow, cost_of, insurance_back, stake_back};
use crate::types::{
    BatchStatus, ConfigModel, ExecutionAnswersModel, ProposalModel, ProposalStatus,
    TransferDetails, TransferRequestModel, VotingStrategy,
};
use crate::voting::Vote;

verus! {

broadcast use crate::books::lemma_movements_push;

/// Counting votes moves nothing.
proof fn lemma_tally_moves_nothing(
    env: EnvModel,
    id: u64,
    signer: Address,
    vote: Vote,
    voters: Seq<Address>,
)
    ensures
        movements(env.count_votes(id, signer, vote, voters).actions) == movements(env.actions),
    decreases voters.len(),
{
    if voters.len() > 0 {
        lemma_tally_moves_nothing(env, id, signer, vote, voters.drop_last());
    }
}

/// Weighing votes moves nothing.
proof fn lemma_settled_moves_nothing(
    env: EnvModel,
    config: ConfigModel,
    signer: Address,
    vote: Vote,
    proposal: ProposalModel,
    count: nat,
)
    ensures
        movements(env.settle_votes(config, signer, vote, proposal, count).actions) == movements(
            env.actions,
        ),
        env.settle_votes(config, signer, vote, proposal, count).treasury == env.treasury,
        env.settle_votes(config, signer, vote, proposal, count).ledger == env.ledger,
{
    reveal(EnvModel::settle_votes);
    let announced = env.announce_votes(config, proposal, count);
    assert(movements(announced.actions) == movements(env.actions));
}

/// What a vote that is counted does to the funds.
proof fn lemma_vote_moves(
    env: EnvModel,
    config: ConfigModel,
    signer: Address,
    id: u64,
    vote: Vote,
)
    requires
        env.proposals.records.contains_key(id),
        env.proposals.records[id].id == id,
        env.proposals.records[id].amount >= 0,
    ensures
        ({
            let before = env.proposals.records[id];
            let (after, r) = env.vote_on(config, signer, id, vote);
            let late = before.voting_deadline > 0 && ledger_of(env) > before.voting_deadline;
            &&& r is Ok && !late ==> movements(after.actions) == movements(env.actions)
                && after.treasury == env.treasury
            &&& r == Err::<(), _>(VaultError::ProposalExpired) ==> movements(after.actions)
                == movements(env.actions) && reservation_freed(env, after, before.amount)
            &&& r is Ok && late ==> movements(after.actions) == movements(
                env.slash_insurance(before).slash_stake(before).actions,
            ) && after.treasury.insurance_pool == env.slash_insurance(
                before,
            ).treasury.insurance_pool && after.treasury.stake_pool == env.slash_stake(
                before,
            ).treasury.stake_pool && after.treasury.daily_spent == env.treasury.daily_spent
                && after.treasury.weekly_spent == env.treasury.weekly_spent
        }),
{
    reveal(EnvModel::vote_on);
    reveal(EnvModel::accept_votes);
    let before = env.proposal(id)->Ok_0;
    let voters = crate::voting::counted_voters(before, env.ballot(signer, vote));
    let counted = crate::voting::with_votes(before, vote, voters);
    crate::voting::lemma_count_votes_frame(env, id, signer, vote, voters);
    lemma_tally_moves_nothing(env, id, signer, vote, voters);
    let tallied = env.count_votes(id, signer, vote, voters);
    let noted = match vote {
        Vote::Approve => tallied.with_approval_ledger(id, signer, env.now()),
        Vote::Abstain => tallied,
    };
    assert(noted.treasury == env.treasury && noted.ledger == env.ledger);
    assert(movements(noted.actions) == movements(env.actions));
    lemma_settled_moves_nothing(noted, config, signer, vote, counted, voters.len());
    lemma_late_moves(noted, env, counted, env.proposals.records[id]);
}

/// What rejecting a proposal because of its deadline does to the funds.
proof fn lemma_late_moves(
    env: EnvModel,
    base: EnvModel,
    proposal: ProposalModel,
    stored: ProposalModel,
)
    requires
        env.treasury == base.treasury,
        env.ledger == base.ledger,
        movements(env.actions) == movements(base.actions),
        proposal.id == stored.id,
        proposal.token == stored.token,
        proposal.proposer == stored.proposer,
        proposal.insurance_amount == stored.insurance_amount,
        proposal.stake_amount == stored.stake_amount,
    ensures
        ({
            let after = env.reject_late(proposal);
            &&& movements(after.actions) == movements(
                base.slash_insurance(stored).slash_stake(stored).actions,
            )
            &&& after.treasury.insurance_pool == base.slash_insurance(
                stored,
            ).treasury.insurance_pool
            &&& after.treasury.stake_pool == base.slash_stake(stored).treasury.stake_pool
            &&& after.treasury.daily_spent == base.treasury.daily_spent
            &&& after.treasury.weekly_spent == base.treasury.weekly_spent
        }),
{
    let rejected = ProposalModel { status: ProposalStatus::Rejected, ..proposal };
    let marked = env.with_proposal(rejected).count_rejection();
    assert(movements(marked.actions) == movements(base.actions));
    let insured = marked.slash_insurance(rejected);
    let other = base.slash_insurance(stored);
    assert(movements(insured.actions) == movements(other.actions));
    assert(insured.treasury.stake_records == other.treasury.stake_records);
    assert(insured.treasury.insurance_pool == other.treasury.insurance_pool);
    assert(insured.treasury.stake_pool == other.treasury.stake_pool);
}

/// A vote that is accepted in time moves no funds and frees nothing. One on a proposal that has
/// expired frees what the proposal reserved. One after the voting deadline rejects the proposal,
/// and slashes its insurance and its stake.
pub proof fn law_votes_move_funds_only_when_late(
    env: EnvModel,
    signer: Address,
    id: u64,
    vote: Vote,
)
    requires
        env.access.config is Some,
        env.proposals.records.contains_key(id),
        env.proposals.records[id].id == id,
        env.proposals.records[id].amount >= 0,
    ensures
        ({
            let before = env.proposals.records[id];
            let (after, r) = cast(env, signer, id, vote);
            let late = before.voting_deadline > 0 && ledger_of(env) > before.voting_deadline;
            &&& r is Ok && !late ==> moved(env, after, seq![]) && after.treasury == env.treasury
            &&& r == Err::<(), _>(VaultError::ProposalExpired) ==> moved(env, after, seq![])
                && reservation_freed(env, after, before.amount)
            &&& r is Ok && late ==> {
                &&& after.proposals.records[id].status == ProposalStatus::Rejected
                &&& movements(after.actions) == movements(
                    env.slash_insurance(before).slash_stake(before).actions,
                )
                &&& after.treasury.insurance_pool == env.slash_insurance(
                    before,
                ).treasury.insurance_pool
                &&& after.treasury.stake_pool == env.slash_stake(before).treasury.stake_pool
                &&& after.treasury.daily_spent == env.treasury.daily_spent
                &&& after.treasury.weekly_spent == env.treasury.weekly_spent
            }
        }),
{
    let before = env.proposals.records[id];
    let config = env.access.config->0;
    let voting = match vote {
        Vote::Approve => env.decay_reputation(signer),
        Vote::Abstain => env,
    };
    assert(movements(voting.actions) == movements(env.actions));
    assert(voting.proposals == env.proposals);
    lemma_vote_moves(voting, config, signer, id, vote);
    crate::decision_laws::lemma_cast(env, signer, id, vote);
    lemma_slash_alike(voting, env, before);
}

/// What slashing moves depends on the treasury and on what moved before.
proof fn lemma_slash_alike(a: EnvModel, b: EnvModel, proposal: ProposalModel)
    requires
        a.treasury == b.treasury,
        a.ledger == b.ledger,
        movements(a.actions) == movements(b.actions),
    ensures
        movements(a.slash_insurance(proposal).slash_stake(proposal).actions) == movements(
            b.slash_insurance(proposal).slash_stake(proposal).actions,
        ),
        a.slash_insurance(proposal).treasury == b.slash_insurance(proposal).treasury,
        a.slash_stake(proposal).treasury == b.slash_stake(proposal).treasury,
{
    assert(movements(a.slash_insurance(proposal).actions) == movements(
        b.slash_insurance(proposal).actions,
    ));
    assert(a.slash_insurance(proposal).treasury == b.slash_insurance(proposal).treasury);
}

/// An approved proposal that has expired is not executed: it is marked as expired, and what it
/// reserved is freed. Nothing is paid.
pub proof fn law_expired_proposals_free_their_reservation(
    env: EnvModel,
    executor: Address,
    id: u64,
    answers: ExecutionAnswersModel,
)
    requires
        env.proposals.records.contains_key(id),
        env.proposals.records[id].id == id,
        env.proposals.records[id].amount >= 0,
        env.proposals.records[id].status == ProposalStatus::Approved,
        ledger_of(env) > env.proposals.records[id].expires_at,
    ensures
        ({
            let before = env.proposals.records[id];
            let (after, r) = env.execute(executor, id, answers);
            let record = after.proposals.records[id];
            &&& r == Err::<(), _>(VaultError::ProposalExpired)
            &&& moved(env, after, seq![])
            &&& reservation_freed(env, after, before.amount)
            &&& after.proposals.records == env.proposals.records.insert(id, record)
            &&& record == (ProposalModel {
                status: ProposalStatus::Expired,
                attachments: record.attachments,
                ..before
            })
        }),
{
}

/// Whether a proposal and those that it depends on do not hold it back.
pub open spec fn not_held_back(env: EnvModel, proposal: ProposalModel) -> bool {
    &&& proposal.unlock_ledger == 0 || ledger_of(env) >= proposal.unlock_ledger
    &&& crate::dependencies::waits(
        env.proposals.records,
        proposal.id,
        proposal.depends_on,
    ) is None
}

/// A proposal that has to wait for none of several others finds each of them executed.
pub proof fn law_waiting_ends_with_execution(
    records: Map<u64, ProposalModel>,
    id: u64,
    depends_on: Seq<u64>,
)
    requires
        crate::dependencies::waits(records, id, depends_on) is None,
    ensures
        forall|i: int|
            0 <= i < depends_on.len() ==> records.contains_key(#[trigger] depends_on[i])
                && records[depends_on[i]].status == ProposalStatus::Executed && depends_on[i] != id,
    decreases depends_on.len(),
{
    if depends_on.len() > 0 {
        let rest = depends_on.drop_last();
        law_waiting_ends_with_execution(records, id, rest);
        assert forall|i: int| 0 <= i < depends_on.len() implies records.contains_key(
            #[trigger] depends_on[i],
        ) && records[depends_on[i]].status == ProposalStatus::Executed && depends_on[i] != id by {
            if i < rest.len() {
                assert(rest[i] == depends_on[i]);
            } else {
                assert(depends_on[i] == depends_on.last());
            }
        }
    }
}

/// Of several proposals that are executed in one call, each is executed exactly when it is
/// approved, has its approvals and votes, has not expired and is not held back, its conditions are
/// met, its cost is within its limit, and the vault holds the amount and the stake. It then pays
/// the recipient its amount and gives the proposer insurance and stake back; nothing else moves.
/// A proposal that has expired is marked so.
pub proof fn law_batched_executions_pay_the_recipient(
    env: EnvModel,
    config: ConfigModel,
    executor: Address,
    id: u64,
    answers: ExecutionAnswersModel,
)
    requires
        env.access.voting_strategy != VotingStrategy::Quadratic,
        percentages_valid(config),
        env.proposals.records.contains_key(id),
        env.proposals.records[id].id == id,
    ensures
        ({
            let before = env.proposals.records[id];
            let (after, done) = env.execute_one(config, executor, id, answers);
            let decided = before.status == ProposalStatus::Approved && approvals_suffice(
                env,
                config,
                before,
                before.approvals.len(),
            ) && votes_suffice(config, before.approvals.len() + before.abstentions.len());
            let alive = ledger_of(env) <= before.expires_at;
            &&& done <==> {
                &&& decided && alive
                &&& not_held_back(env, before)
                &&& before.conditions.len() == 0 || conditions_allow(
                    env,
                    before.conditions,
                    before.condition_logic,
                    answers.observations,
                )
                &&& before.gas_limit == 0 || cost_of(env, before) <= before.gas_limit
                &&& answers.balance >= before.amount + before.stake_amount
            }
            &&& done ==> {
                let record = after.proposals.records[id];
                &&& moved(
                    env,
                    after,
                    seq![
                        Action::Transfer {
                            token: before.token,
                            to: before.recipient,
                            amount: before.amount,
                        },
                    ] + insurance_back(before) + stake_back(env, before),
                )
                &&& after.proposals.records == env.proposals.records.insert(id, record)
                &&& record == (ProposalModel {
                    status: ProposalStatus::Executed,
                    gas_used: cost_of(env, before) as u64,
                    attachments: record.attachments,
                    ..before
                })
                &&& after.treasury.daily_spent == env.treasury.daily_spent
                &&& after.treasury.weekly_spent == env.treasury.weekly_spent
            }
            &&& !done ==> moved(env, after, seq![])
            &&& !done && decided && !alive ==> after.proposals.records[id].status
                == ProposalStatus::Expired
            &&& !done && !(decided && !alive) ==> after.proposals == env.proposals
        }),
{
    let before = env.proposal(id)->Ok_0;
    crate::decision_laws::law_thresholds_count_approvals(env, config, before);
    crate::decision_laws::law_quorums_count_votes(
        config,
        before.approvals.len() + before.abstentions.len(),
    );
    crate::transfer_laws::law_conditions_are_tested(env, before, answers.observations);
    crate::transfer_laws::law_costs_count_the_steps(env, before);
    let tested = if before.conditions.len() > 0 {
        env.evaluate(before, answers.observations).0
    } else {
        env
    };
    lemma_batched(tested, executor, before);
}

/// What executing a proposal of a batch does.
proof fn lemma_batched(env: EnvModel, executor: Address, proposal: ProposalModel)
    ensures
        ({
            let after = env.executed_in_batch(executor, proposal);
            &&& movements(after.actions) =~= movements(env.actions) + seq![
                Action::Transfer {
                    token: proposal.token,
                    to: proposal.recipient,
                    amount: proposal.amount,
                },
            ] + insurance_back(proposal) + stake_back(env, proposal)
            &&& after.proposals.records == env.proposals.records.insert(
                proposal.id,
                ProposalModel {
                    status: ProposalStatus::Executed,
                    gas_used: env.execution_fee(proposal).total_fee,
                    ..proposal
                },
            )
            &&& after.treasury.daily_spent == env.treasury.daily_spent
            &&& after.treasury.weekly_spent == env.treasury.weekly_spent
        }),
{
    reveal(EnvModel::executed_in_batch);
    let executed = ProposalModel {
        gas_used: env.execution_fee(proposal).total_fee,
        status: ProposalStatus::Executed,
        ..proposal
    };
    let paid = env.act(
        Action::Transfer {
            token: proposal.token,
            to: proposal.recipient,
            amount: proposal.amount,
        },
    ).return_insurance(proposal).return_stake(proposal);
    assert(movements(paid.actions) =~= movements(env.actions) + seq![
        Action::Transfer {
            token: proposal.token,
            to: proposal.recipient,
            amount: proposal.amount,
        },
    ] + insurance_back(proposal) + stake_back(env, proposal));
    let announced = paid.with_proposal(executed).announce_execution(executor, executed);
    assert(movements(announced.actions) == movements(paid.actions));
    crate::transfer_laws::lemma_counted_moves_nothing(announced, executed);
    crate::execution::lemma_rewards_frame(
        announced.reward_proposer(executed.proposer),
        executed.approvals,
    );
}

/// Executing several proposals is executing the first ones and then the last one, in the state
/// that they left; the last one is reported where it was executed, and counted where it was not.
pub proof fn law_batches_execute_one_after_the_other(
    env: EnvModel,
    config: ConfigModel,
    executor: Address,
    ids: Seq<u64>,
    answers: Seq<ExecutionAnswersModel>,
    id: u64,
    answer: ExecutionAnswersModel,
)
    requires
        answers.len() == ids.len(),
    ensures
        ({
            let first = env.execute_each(config, executor, ids, answers);
            let all = env.execute_each(config, executor, ids.push(id), answers.push(answer));
            let (last, done) = first.env.execute_one(config, executor, id, answer);
            &&& all.env == last
            &&& done ==> all.executed == first.executed.push(id) && all.failed == first.failed
            &&& !done ==> all.executed == first.executed && all.failed == first.failed + 1
        }),
{
    assert(ids.push(id).drop_last() =~= ids);
    lemma_each_prefix(env, config, executor, ids, answers, answers.push(answer));
}

/// What executing several proposals comes to depends on the answers for them.
proof fn lemma_each_prefix(
    env: EnvModel,
    config: ConfigModel,
    executor: Address,
    ids: Seq<u64>,
    a: Seq<ExecutionAnswersModel>,
    b: Seq<ExecutionAnswersModel>,
)
    requires
        ids.len() <= a.len(),
        ids.len() <= b.len(),
        forall|i: int| 0 <= i < ids.len() ==> a[i] == #[trigger] b[i],
    ensures
        env.execute_each(config, executor, ids, a) == env.execute_each(config, executor, ids, b),
    decreases ids.len(),
{
    if ids.len() > 0 {
        lemma_each_prefix(env, config, executor, ids.drop_last(), a, b);
        assert(a[ids.len() - 1] == b[ids.len() - 1]);
    }
}

/// The transfers of proposals that go through, in order.
pub open spec fn paid_for(records: Map<u64, ProposalModel>, ids: Seq<u64>) -> Seq<Action> {
    Seq::new(
        ids.len(),
        |i: int|
            Action::TriedTransfer {
                token: records[ids[i]].token,
                to: records[ids[i]].recipient,
                amount: records[ids[i]].amount,
                done: true,
            },
    )
}

/// What was paid for proposals being taken back, in order.
pub open spec fn taken_back_for(records: Map<u64, ProposalModel>, ids: Seq<u64>) -> Seq<Action> {
    Seq::new(
        ids.len(),
        |i: int|
            Action::TakeBack {
                token: records[ids[i]].token,
                from: records[ids[i]].recipient,
                amount: records[ids[i]].amount,
            },
    )
}

/// Whether proposals pay the same to the same.
spec fn pay_alike(a: Map<u64, ProposalModel>, b: Map<u64, ProposalModel>) -> bool {
    &&& a.dom() =~= b.dom()
    &&& forall|id: u64| #[trigger]
        a.contains_key(id) ==> a[id].token == b[id].token && a[id].recipient == b[id].recipient
            && a[id].amount == b[id].amount && a[id].id == b[id].id
}

/// What running a recorded batch pays.
proof fn lemma_run_pays(env: EnvModel, executor: Address, ids: Seq<u64>, outcomes: Seq<bool>)
    requires
        env.records_keyed(),
    ensures
        ({
            let run = env.run_batch(executor, ids, outcomes);
            &&& run.env.records_keyed()
            &&& pay_alike(env.proposals.records, run.env.proposals.records)
            &&& run.failed == 0 ==> run.executed == ids && movements(run.env.actions)
                =~= movements(env.actions) + paid_for(env.proposals.records, ids)
            &&& forall|i: int|
                0 <= i < run.executed.len() ==> env.proposals.records.contains_key(
                    #[trigger] run.executed[i],
                )
        }),
    decreases ids.len(),
{
    if ids.len() > 0 {
        let rest = ids.drop_last();
        let id = ids.last();
        lemma_run_pays(env, executor, rest, outcomes);
        let before = env.run_batch(executor, rest, outcomes);
        let run = env.run_batch(executor, ids, outcomes);
        if before.failed == 0 && before.env.batch_item_ready(id) {
            assert(before.env.proposals.records.contains_key(id));
            assert(before.env.proposals.records.dom().contains(id));
            assert(env.proposals.records.contains_key(id));
            if outcomes[ids.len() - 1] {
                assert(run.executed =~= ids);
                assert(paid_for(env.proposals.records, ids) =~= paid_for(
                    env.proposals.records,
                    rest,
                ).push(
                    Action::TriedTransfer {
                        token: env.proposals.records[id].token,
                        to: env.proposals.records[id].recipient,
                        amount: env.proposals.records[id].amount,
                        done: true,
                    },
                ));
                assert forall|i: int| 0 <= i < run.executed.len() implies
                    env.proposals.records.contains_key(#[trigger] run.executed[i]) by {
                    if i < rest.len() {
                        assert(before.executed[i] == run.executed[i]);
                    }
                }
            }
        }
    }
}

/// What taking back moves.
proof fn lemma_taken_back_moves(env: EnvModel, ids: Seq<u64>)
    requires
        env.records_keyed(),
        forall|i: int|
            0 <= i < ids.len() ==> env.proposals.records.contains_key(#[trigger] ids[i]),
    ensures
        ({
            let after = env.take_back_each(ids).0;
            &&& after.records_keyed()
            &&& pay_alike(env.proposals.records, after.proposals.records)
            &&& movements(after.actions) =~= movements(env.actions) + taken_back_for(
                env.proposals.records,
                ids,
            )
        }),
    decreases ids.len(),
{
    if ids.len() > 0 {
        let rest = ids.drop_last();
        let id = ids.last();
        assert forall|i: int| 0 <= i < rest.len() implies env.proposals.records.contains_key(
            #[trigger] rest[i],
        ) by {
            assert(env.proposals.records.contains_key(ids[i]));
        }
        lemma_taken_back_moves(env, rest);
        let before = env.take_back_each(rest).0;
        assert(env.proposals.records.contains_key(ids[ids.len() - 1]));
        assert(before.proposals.records.dom().contains(id));
        assert(taken_back_for(env.proposals.records, ids) =~= taken_back_for(
            env.proposals.records,
            rest,
        ).push(
            Action::TakeBack {
                token: env.proposals.records[id].token,
                from: env.proposals.records[id].recipient,
                amount: env.proposals.records[id].amount,
            },
        ));
    }
}

/// A recorded batch that completes pays each of its proposals once, its amount to its recipient,
/// and nothing else. One that does not takes everything back from those who were paid.
pub proof fn law_recorded_batches_pay_all_or_take_back(
    env: EnvModel,
    executor: Address,
    batch_id: u64,
    outcomes: Seq<bool>,
)
    requires
        env.records_keyed(),
        env.programs.proposal_batches.contains_key(batch_id),
        env.programs.proposal_batches[batch_id].id == batch_id,
    ensures
        ({
            let batch = env.programs.proposal_batches[batch_id];
            let (after, r) = env.execute_proposal_batch(executor, batch_id, outcomes);
            let status = after.programs.proposal_batches[batch_id].status;
            let run = env.begun_batch(batch).run_batch(executor, batch.proposal_ids, outcomes);
            &&& r is Ok <==> batch.status == BatchStatus::Pending
            &&& r is Err ==> after == env && r == Err::<(), _>(VaultError::InvalidAmount)
            &&& r is Ok && status == BatchStatus::Completed ==> moved(
                env,
                after,
                paid_for(env.proposals.records, batch.proposal_ids),
            )
            &&& r is Ok && status == BatchStatus::RolledBack ==> movements(after.actions)
                =~= movements(run.env.actions) + taken_back_for(
                env.proposals.records,
                run.executed,
            )
            &&& r is Ok ==> status == BatchStatus::Completed || status == BatchStatus::RolledBack
        }),
{
    reveal(crate::batch_execution::finish_batch);
    let batch = env.programs.proposal_batches[batch_id];
    let begun = env.begun_batch(batch);
    let run: BatchRun = begun.run_batch(executor, batch.proposal_ids, outcomes);
    lemma_run_pays(begun, executor, batch.proposal_ids, outcomes);
    assert forall|i: int| 0 <= i < run.executed.len() implies
        run.env.proposals.records.contains_key(#[trigger] run.executed[i]) by {
        assert(begun.proposals.records.dom().contains(run.executed[i]));
    }
    lemma_taken_back_moves(run.env, run.executed);
    assert(taken_back_for(run.env.proposals.records, run.executed) =~= taken_back_for(
        env.proposals.records,
        run.executed,
    )) by {
        assert forall|i: int| 0 <= i < run.executed.len() implies #[trigger] taken_back_for(
            run.env.proposals.records,
            run.executed,
        )[i] == taken_back_for(env.proposals.records, run.executed)[i] by {
            assert(begun.proposals.records.contains_key(run.executed[i]));
        }
    }
}

/// The amounts of transfers added up.
pub open spec fn transfers_sum(transfers: Seq<TransferDetails>) -> int {
    transfers.fold_left(0int, |sum: int, transfer: TransferDetails| sum + transfer.amount)
}

/// Where all amounts are positive, their sum is what counts; the first that is not, or is above
/// the limit, is refused.
proof fn lemma_transfers(transfers: Seq<TransferDetails>, limit: i128)
    ensures
        ({
            let sized = forall|i: int|
                0 <= i < transfers.len() ==> 0 < (#[trigger] transfers[i]).amount <= limit;
            &&& crate::batch_proposals::amounts_refusal(transfers, limit) is None <==> sized
            &&& sized ==> transfers_sum(transfers) == crate::batch_proposals::batch_total(
                transfers,
            ) && transfers_sum(transfers) >= 0
        }),
    decreases transfers.len(),
{
    if transfers.len() > 0 {
        let rest = transfers.drop_last();
        lemma_transfers(rest, limit);
        let last = transfers[transfers.len() - 1];
        assert(last == transfers.last());
        let sized = forall|i: int|
            0 <= i < transfers.len() ==> 0 < (#[trigger] transfers[i]).amount <= limit;
        let rest_sized = forall|i: int|
            0 <= i < rest.len() ==> 0 < (#[trigger] rest[i]).amount <= limit;
        if sized {
            assert forall|i: int| 0 <= i < rest.len() implies 0 < (#[trigger] rest[i]).amount
                <= limit by {
                assert(rest[i] == transfers[i]);
            }
        }
        if rest_sized && 0 < last.amount <= limit {
            assert forall|i: int| 0 <= i < transfers.len() implies 0 < (
            #[trigger] transfers[i]).amount <= limit by {
                if i < rest.len() {
                    assert(rest[i] == transfers[i]);
                }
            }
        }
    }
}

/// Filing proposals moves nothing.
proof fn lemma_filing_moves_nothing(
    env: EnvModel,
    config: ConfigModel,
    common: TransferRequestModel,
    transfers: Seq<TransferDetails>,
    shares: Seq<i128>,
)
    ensures
        ({
            let after = env.file_each(config, common, transfers, shares);
            &&& movements(after.actions) == movements(env.actions)
            &&& after.treasury == env.treasury
            &&& after.ledger == env.ledger
        }),
    decreases transfers.len(),
{
    if transfers.len() > 0 {
        lemma_filing_moves_nothing(env, config, common, transfers.drop_last(), shares);
    }
}

/// Several transfers, ten at most, are proposed together exactly where their proposer is a
/// treasurer or an admin and may propose once more, each is for a positive amount within the limit
/// of a proposal, the day and the week have room for all of them, and the insurance is enough for
/// their sum. Their sum is reserved, and the insurance is collected once, in the first token.
pub proof fn law_batches_are_proposed_within_limits(
    env: EnvModel,
    common: TransferRequestModel,
    transfers: Seq<TransferDetails>,
)
    requires
        env.access.config is Some,
        transfers.len() > 0,
        env.batch_propose_fits(
            common.proposer,
            transfers,
            common.priority,
            common.insurance_amount,
        ),
    ensures
        ({
            let config = env.access.config->0;
            let (after, r) = env.batch_propose(common, transfers);
            let total = transfers_sum(transfers);
            let small = transfers.len() <= 10;
            let entitled = is_treasurer(env, common.proposer);
            let seldom = inside_window(
                listed(env.treasury.velocity, common.proposer),
                env.ledger.timestamp,
                config.velocity_limit.window,
            ) < config.velocity_limit.limit;
            let sized = forall|i: int|
                0 <= i < transfers.len() ==> 0 < (#[trigger] transfers[i]).amount
                    <= config.spending_limit;
            let score = crate::transfer_laws::score_of(env, common.proposer);
            let day_fits = spent_today(env) + total <= config.daily_limit;
            let week_fits = spent_this_week(env) + total <= config.weekly_limit;
            &&& r is Ok <==> {
                &&& small && entitled && seldom && sized && day_fits && week_fits
                &&& common.insurance_amount >= least_insurance(env, total as i128, score)
            }
            &&& r is Err ==> after.proposals == env.proposals
            &&& !small ==> r is Err && r->Err_0 == VaultError::BatchTooLarge
            &&& small && !entitled ==> r is Err && r->Err_0 == VaultError::InsufficientRole
            &&& small && entitled && !seldom ==> r is Err && r->Err_0
                == VaultError::VelocityLimitExceeded
            &&& small && entitled && seldom && sized && !day_fits ==> r is Err && r->Err_0
                == VaultError::ExceedsDailyLimit
            &&& small && entitled && seldom && sized && day_fits && !week_fits ==> r is Err
                && r->Err_0 == VaultError::ExceedsWeeklyLimit
            &&& r is Ok ==> {
                &&& moved(
                    env,
                    after,
                    collected(
                        transfers[0].token,
                        common.proposer,
                        most(common.insurance_amount as int, 0),
                    ),
                )
                &&& spent_today(after) == spent_today(env) + total
                &&& spent_this_week(after) == spent_this_week(env) + total
                &&& r->Ok_0 == Seq::new(
                    transfers.len(),
                    |i: int| (env.proposals.next_id + i) as u64,
                )
                &&& after.programs.proposal_batches.contains_key(
                    env.programs.next_proposal_batch_id,
                )
                &&& after.programs.proposal_batches[env.programs.next_proposal_batch_id].proposal_ids
                    == r->Ok_0
                &&& after.programs.proposal_batches[env.programs.next_proposal_batch_id].status
                    == BatchStatus::Pending
            }
        }),
{
    let config = env.access.config->0;
    lemma_transfers(transfers, config.spending_limit);
    crate::proposal_laws::law_velocity_counts_the_window(
        env,
        common.proposer,
        config.velocity_limit,
    );
    let total = crate::batch_proposals::batch_total(transfers);
    if transfers.len() <= 10 && crate::batch_proposals::amounts_refusal(
        transfers,
        config.spending_limit,
    ) is None {
        lemma_total_positive(transfers, config.spending_limit);
        let score = env.reputation(common.proposer).score;
        crate::proposal_laws::lemma_insurance(env, total as i128, score, common.insurance_amount);
        if let Ok(insurance) = env.settled_insurance(
            total as i128,
            score,
            common.insurance_amount,
        ) {
            let counted = env.count_velocity(common.proposer, config.velocity_limit);
            lemma_created_together(counted, config, common, transfers, insurance);
        }
    }
}

/// Some positive amounts have a positive sum.
proof fn lemma_total_positive(transfers: Seq<TransferDetails>, limit: i128)
    requires
        transfers.len() > 0,
        crate::batch_proposals::amounts_refusal(transfers, limit) is None,
    ensures
        crate::batch_proposals::batch_total(transfers) > 0,
{
    lemma_transfers(transfers.drop_last(), limit);
}

/// What proposing several transfers does once the limits allow it.
proof fn lemma_created_together(
    env: EnvModel,
    config: ConfigModel,
    common: TransferRequestModel,
    transfers: Seq<TransferDetails>,
    insurance: i128,
)
    requires
        transfers.len() > 0,
    ensures
        ({
            let after = env.create_batch(config, common, transfers, insurance);
            let total = crate::batch_proposals::batch_total(transfers);
            let next = env.programs.next_proposal_batch_id;
            &&& after.ledger == env.ledger
            &&& movements(after.actions) =~= movements(env.actions) + collected(
                transfers[0].token,
                common.proposer,
                insurance as int,
            )
            &&& after.treasury.daily_spent == env.treasury.daily_spent.insert(
                env.ledger.timestamp / 86_400,
                (spent_today(env) + total as i128) as i128,
            )
            &&& after.treasury.weekly_spent == env.treasury.weekly_spent.insert(
                env.ledger.timestamp / 604_800,
                (spent_this_week(env) + total as i128) as i128,
            )
            &&& after.programs.proposal_batches.contains_key(next)
            &&& after.programs.proposal_batches[next].proposal_ids
                == crate::batch_proposals::ids_from(env.proposals.next_id, transfers.len())
            &&& after.programs.proposal_batches[next].status == BatchStatus::Pending
        }),
{
    reveal(EnvModel::create_batch);
    let reserved = env.collect(
        transfers[0].token,
        common.proposer,
        insurance,
    ).reserve_spending(crate::batch_proposals::batch_total(transfers) as i128);
    let shares = crate::batch_proposals::insurance_shares(insurance, transfers.len());
    lemma_filing_moves_nothing(reserved, config, common, transfers, shares);
    lemma_filing_programs(reserved, config, common, transfers, shares);
}

/// Filing proposals leaves programs alone.
proof fn lemma_filing_programs(
    env: EnvModel,
    config: ConfigModel,
    common: TransferRequestModel,
    transfers: Seq<TransferDetails>,
    shares: Seq<i128>,
)
    ensures
        env.file_each(config, common, transfers, shares).programs == env.programs,
    decreases transfers.len(),
{
    if transfers.len() > 0 {
        lemma_filing_programs(env, config, common, transfers.drop_last(), shares);
    }
}

} // verus!
