//! What holds of what calls leave on record: chains of delegation, rewards, counters, retries, what
//! can be reversed, and the proposals of a batch.

use vstd::prelude::*;

use crate::books::{kept, least, ledger_of, most};
use crate::decision_laws::{cast, delegates, votes_alone};
use crate::env::{Action, EnvModel};
use crate::errors::VaultError;
use crate::primitives::{Address, VolumeKey, VoteKey};
use crate::proposal_laws::payable_from;
use crate::standing_laws::known_of;
use crate::transfer_laws::was_executed;
use crate::types::{
    ConfigModel, ExecutionAnswersModel, Priority, ProposalModel, ProposalStatus, Reputation,
    TransferDetails, TransferRequestModel, VotingStrategy,
};
use crate::voting::Vote;

verus! {

/// A chain of delegations leads from an address to the one that it delegates to, and on from there,
/// as far as it is followed; an address that does not delegate has none.
pub proof fn law_chains_follow_delegations(env: EnvModel, addr: Address, limit: nat)
    ensures
        env.delegation_chain(addr, 0).len() == 0,
        !delegates(env, addr) ==> env.delegation_chain(addr, limit).len() == 0,
        delegates(env, addr) ==> env.delegation_chain(addr, limit + 1) == seq![
            env.members.delegations[addr].delegate,
        ] + env.delegation_chain(env.members.delegations[addr].delegate, limit),
        !delegates(env, addr) ==> env.effective_voter(addr) == addr,
{
}

/// A delegation between two signers is refused exactly where the delegate has delegated to the
/// delegator, the chain from the delegate leads back to the delegator, or is ten delegations long.
pub proof fn law_delegations_close_no_circle(
    env: EnvModel,
    delegator: Address,
    delegate: Address,
    expiry: u64,
)
    requires
        env.access.config is Some,
        delegator != delegate,
        env.access.config->0.signers.contains(delegator),
        env.access.config->0.signers.contains(delegate),
    ensures
        ({
            let r = env.delegate(delegator, delegate, expiry).1;
            let chain = env.delegation_chain(delegate, 10);
            let back = env.members.delegations.contains_key(delegate)
                && env.members.delegations[delegate].delegate == delegator;
            &&& r is Ok <==> !back && chain.len() < 10 && !chain.contains(delegator)
            &&& r is Err ==> r == Err::<(), _>(VaultError::Unauthorized)
        }),
{
}

/// Under conviction voting a vote weighs the locked tokens times their multiplier, and one at
/// least; under any other strategy but quadratic voting it weighs one.
pub proof fn law_convictions_weigh_the_lock(env: EnvModel, voter: Address)
    requires
        env.access.voting_strategy != VotingStrategy::Quadratic,
        env.members.token_locks.contains_key(voter) ==> env.members.token_locks[voter].amount >= 0
            && env.members.token_locks[voter].amount
            * env.members.token_locks[voter].power_multiplier_bps / 10_000 <= u64::MAX,
    ensures
        ({
            let locks = env.members.token_locks;
            let lock = locks[voter];
            let counts = env.access.voting_strategy == VotingStrategy::Conviction
                && locks.contains_key(voter) && lock.is_active;
            env.vote_weight(voter) == if counts {
                most(lock.amount * lock.power_multiplier_bps / 10_000, 1)
            } else {
                1
            }
        }),
{
    let lock = env.members.token_locks[voter];
    if env.members.token_locks.contains_key(voter) {
        assert(lock.amount * lock.power_multiplier_bps >= 0) by (nonlinear_arith)
            requires
                lock.amount >= 0,
                lock.power_multiplier_bps >= 0,
        ;
    }
}

/// Rewards leave rules and time alone.
proof fn lemma_rewards_keep_rules(env: EnvModel, approvers: Seq<Address>)
    ensures
        env.reward_approvers(approvers).members.reputation_config == env.members.reputation_config,
        env.reward_approvers(approvers).ledger == env.ledger,
    decreases approvers.len(),
{
    if approvers.len() > 0 {
        lemma_rewards_keep_rules(env, approvers.drop_last());
    }
}

/// Each of those who approved an executed proposal gets five more, once.
pub proof fn law_approvers_are_rewarded(env: EnvModel, approvers: Seq<Address>, addr: Address)
    requires
        approvers.no_duplicates(),
        approvers.contains(addr),
    ensures
        known_of(env.reward_approvers(approvers), addr) == (Reputation {
            score: least(env.current_reputation(addr).score + 5, 1_000) as u32,
            ..env.current_reputation(addr)
        }),
    decreases approvers.len(),
{
    let rest = approvers.drop_last();
    lemma_rewards_keep_rules(env, rest);
    if approvers.last() == addr {
        assert(!rest.contains(addr)) by {
            if rest.contains(addr) {
                let i = choose|i: int| 0 <= i < rest.len() && rest[i] == addr;
                assert(approvers[i] == approvers[approvers.len() - 1]);
            }
        }
        crate::standing_laws::lemma_rewards_leave_others(env, rest, addr);
    } else {
        let i = choose|i: int| 0 <= i < approvers.len() && approvers[i] == addr;
        assert(rest[i] == addr);
        law_approvers_are_rewarded(env, rest, addr);
    }
}

/// Completing an execution keeps snapshots and volumes.
proof fn lemma_complete_keeps(
    env: EnvModel,
    config: ConfigModel,
    executor: Address,
    proposal: ProposalModel,
)
    ensures
        ({
            let after = env.complete_execution(config, executor, proposal);
            &&& after.proposals.snapshots == env.proposals.snapshots
            &&& after.treasury.user_volume == env.treasury.user_volume
            &&& after.treasury.metrics.executed_count == least(
                env.treasury.metrics.executed_count + 1,
                u64::MAX as int,
            )
        }),
{
    let executed = ProposalModel { status: ProposalStatus::Executed, ..proposal };
    crate::execution::lemma_hooks_frame(env, config.post_execution_hooks, proposal.id, false);
    let announced = env.call_hooks(
        config.post_execution_hooks,
        proposal.id,
        false,
    ).with_proposal(executed).act(Action::ExtendInstanceTtl).announce_execution(
        executor,
        executed,
    );
    assert(announced.treasury == env.treasury);
    crate::execution::lemma_rewards_frame(
        announced.reward_proposer(executed.proposer),
        executed.approvals,
    );
}

/// An execution is counted, leaves behind the proposal as it stood, from which it can be reversed,
/// and counts its amount to the volume of the proposer where a fee was charged.
pub proof fn law_executions_can_be_reversed(
    env: EnvModel,
    executor: Address,
    id: u64,
    answers: ExecutionAnswersModel,
)
    requires
        env.proposals.records.contains_key(id),
        env.proposals.records[id].id == id,
        was_executed(env, env.execute(executor, id, answers).0, id),
        i128::MIN <= kept(
            env.treasury.user_volume,
            VolumeKey {
                user: env.proposals.records[id].proposer,
                token: env.proposals.records[id].token,
            },
        ) + env.proposals.records[id].amount <= i128::MAX,
    ensures
        ({
            let before = env.proposals.records[id];
            let after = env.execute(executor, id, answers).0;
            let fee = env.decay_reputation(executor).fee(
                before.proposer,
                before.token,
                before.amount,
            ).final_fee;
            let key = VolumeKey { user: before.proposer, token: before.token };
            let snapshot = after.proposals.snapshots[id].proposal;
            &&& after.proposals.snapshots.contains_key(id)
            &&& snapshot == (ProposalModel { attachments: snapshot.attachments, ..before })
            &&& after.treasury.metrics.executed_count == least(
                env.treasury.metrics.executed_count + 1,
                u64::MAX as int,
            )
            &&& kept(after.treasury.user_volume, key) == kept(env.treasury.user_volume, key) + if fee
                != 0 {
                before.amount as int
            } else {
                0
            }
        }),
{
    crate::transfer_laws::lemma_executed(env, executor, id, answers);
    let proposal = env.proposal(id)->Ok_0;
    let config = env.access.config->0;
    let known = env.decay_reputation(executor);
    let (started, _) = env.start_execution(executor, id);
    crate::transfer_laws::lemma_start_moves_nothing(env, executor, id);
    crate::execution::lemma_hooks_frame(known, config.pre_execution_hooks, proposal.id, true);
    let (charged, fee) = started.charge(proposal, answers.observations);
    lemma_charge_keeps(started, proposal, answers.observations);
    let (tried, executed) = started.try_execute(proposal, answers);
    assert(tried.proposals == charged.proposals);
    assert(tried.treasury.user_volume == charged.treasury.user_volume);
    assert(tried.treasury.metrics == charged.treasury.metrics);
    lemma_complete_keeps(tried, config, executor, executed->Ok_0);
    assert(env.execute(executor, id, answers).0 == tried.complete_execution(
        config,
        executor,
        executed->Ok_0,
    )) by {
        reveal(EnvModel::finish_execution);
    }
}

/// Charging counts volume, and leaves proposals and counters alone.
proof fn lemma_charge_keeps(
    env: EnvModel,
    proposal: ProposalModel,
    seen: Seq<crate::types::Observation>,
)
    ensures
        ({
            let (after, r) = env.charge(proposal, seen);
            let fee = env.fee(proposal.proposer, proposal.token, proposal.amount).final_fee;
            let key = VolumeKey { user: proposal.proposer, token: proposal.token };
            let volume = kept(env.treasury.user_volume, key);
            &&& after.proposals == env.proposals
            &&& after.treasury.metrics == env.treasury.metrics
            &&& r is Ok && i128::MIN <= volume + proposal.amount <= i128::MAX ==> kept(
                after.treasury.user_volume,
                key,
            ) == volume + if fee != 0 {
                proposal.amount as int
            } else {
                0
            }
        }),
{
    crate::conditions::lemma_conditions_frame(env, proposal.conditions, seen);
}

/// An execution that fails for want of funds is tried again later where retries are in use and
/// there are tries left; otherwise it is refused. Nothing is transferred to the recipient.
pub proof fn law_executions_without_funds_are_retried(
    env: EnvModel,
    executor: Address,
    id: u64,
    answers: ExecutionAnswersModel,
)
    requires
        env.proposals.records.contains_key(id),
        env.proposals.records[id].id == id,
        env.start_execution(executor, id).1 is Ok,
        env.start_execution(executor, id).0.charge(
            env.proposal(id)->Ok_0,
            answers.observations,
        ).1 is Ok,
        answers.balance < env.proposals.records[id].amount
            + env.proposals.records[id].insurance_amount,
        env.proposals.retries.contains_key(id) ==> env.proposals.retries[id].retry_count
            < u32::MAX,
        env.proposals.records[id].amount >= 0,
    ensures
        ({
            let (after, r) = env.execute(executor, id, answers);
            let rules = env.access.config->0.retry_config;
            let tried = if env.proposals.retries.contains_key(id) {
                env.proposals.retries[id].retry_count as int
            } else {
                0
            };
            &&& r is Ok <==> rules.enabled && tried < rules.max_retries
            &&& !rules.enabled ==> r == Err::<(), _>(VaultError::InsufficientBalance)
            &&& rules.enabled && tried >= rules.max_retries ==> r == Err::<(), _>(
                VaultError::RetryError,
            )
            &&& after.proposals.records == env.proposals.records
            &&& r is Ok ==> after.proposals.retries.contains_key(id)
                && after.proposals.retries[id].retry_count == tried + 1
                && after.proposals.retries[id].last_retry_ledger == ledger_of(env)
        }),
{
    reveal(EnvModel::finish_execution);
    let proposal = env.proposal(id)->Ok_0;
    let config = env.access.config->0;
    let known = env.decay_reputation(executor);
    let (started, _) = env.start_execution(executor, id);
    crate::transfer_laws::lemma_start_moves_nothing(env, executor, id);
    crate::execution::lemma_hooks_frame(known, config.pre_execution_hooks, proposal.id, true);
    let (charged, fee) = started.charge(proposal, answers.observations);
    lemma_charge_keeps(started, proposal, answers.observations);
    crate::conditions::lemma_conditions_frame(started, proposal.conditions, answers.observations);
    assert(fee->Ok_0 >= 0);
    assert(charged.ledger == env.ledger);
}

/// A proposal that is made is counted, for the vault and for its proposer.
pub proof fn law_proposals_are_counted(env: EnvModel, request: TransferRequestModel)
    requires
        env.propose(request).1 is Ok,
        known_of(env, request.proposer).proposals_created < u32::MAX,
    ensures
        ({
            let after = env.propose(request).0;
            &&& after.treasury.metrics.total_proposals == least(
                env.treasury.metrics.total_proposals + 1,
                u64::MAX as int,
            )
            &&& known_of(after, request.proposer).proposals_created == known_of(
                env,
                request.proposer,
            ).proposals_created + 1
        }),
{
    reveal(EnvModel::propose_funded);
    let config = env.access.config->0;
    let rep = env.current_reputation(request.proposer);
    let known = env.count_velocity(request.proposer, config.velocity_limit).with_reputation(
        request.proposer,
        rep,
    );
    let insurance = env.settled_insurance(
        request.amount,
        rep.score,
        request.insurance_amount,
    )->Ok_0;
    let stake = env.required_stake(request.amount, rep.score);
    let numbered = known.collect(request.token, request.proposer, insurance).collect(
        request.token,
        request.proposer,
        stake,
    ).reserve_spending(request.amount).bump_proposal_id();
    let terms = crate::proposals::ProposalTerms {
        id: env.proposals.next_id,
        insurance,
        stake,
        unlock_ledger: crate::proposals::unlock_ledger(config, request.amount, env.now()),
        expires_at: (env.now() + crate::constants::PROPOSAL_EXPIRY_LEDGERS) as u64,
    };
    let proposal = numbered.new_proposal(config, request, terms);
    lemma_creation_counted(numbered, proposal);
    assert(known_of(numbered, request.proposer).proposals_created == known_of(
        env,
        request.proposer,
    ).proposals_created);
    assert(numbered.treasury.metrics == env.treasury.metrics);
}

/// Creating a proposal counts it.
proof fn lemma_creation_counted(env: EnvModel, proposal: ProposalModel)
    requires
        known_of(env, proposal.proposer).proposals_created < u32::MAX,
    ensures
        ({
            let after = env.create_proposal(proposal);
            &&& after.treasury.metrics.total_proposals == least(
                env.treasury.metrics.total_proposals + 1,
                u64::MAX as int,
            )
            &&& known_of(after, proposal.proposer).proposals_created == known_of(
                env,
                proposal.proposer,
            ).proposals_created + 1
        }),
{
    reveal(EnvModel::create_proposal);
}

/// The last ledger of a proposal that is made together with others: the configured deadline, a
/// week at least, and twice as long with low priority.
pub open spec fn lasts_until(env: EnvModel, config: ConfigModel, priority: Priority) -> int {
    let span = most(config.default_voting_deadline as int, 120_960);
    ledger_of(env) + least(
        if priority == Priority::Low {
            2 * span
        } else {
            span
        },
        u64::MAX as int,
    )
}

/// What filing proposals stores of each.
proof fn lemma_filed_as_asked(
    env: EnvModel,
    config: ConfigModel,
    common: TransferRequestModel,
    transfers: Seq<TransferDetails>,
    shares: Seq<i128>,
)
    requires
        env.proposals.next_id + transfers.len() <= u64::MAX,
    ensures
        ({
            let after = env.file_each(config, common, transfers, shares);
            let first = env.proposals.next_id;
            &&& after.proposals.next_id == first + transfers.len()
            &&& after.ledger == env.ledger
            &&& forall|i: int|
                0 <= i < transfers.len() ==> filed_as_asked(
                    env,
                    config,
                    common,
                    transfers[i],
                    (first + i) as u64,
                    #[trigger] after.proposals.records[(first + i) as u64],
                )
            &&& forall|id: u64|
                id < first ==> #[trigger] after.proposals.records[id]
                    == env.proposals.records[id]
        }),
    decreases transfers.len(),
{
    if transfers.len() > 0 {
        let rest = transfers.drop_last();
        lemma_filed_as_asked(env, config, common, rest, shares);
        let before = env.file_each(config, common, rest, shares);
        let after = env.file_each(config, common, transfers, shares);
        let first = env.proposals.next_id;
        assert forall|i: int| 0 <= i < transfers.len() implies filed_as_asked(
            env,
            config,
            common,
            transfers[i],
            (first + i) as u64,
            #[trigger] after.proposals.records[(first + i) as u64],
        ) by {
            if i < rest.len() {
                assert(rest[i] == transfers[i]);
                assert(after.proposals.records[(first + i) as u64]
                    == before.proposals.records[(first + i) as u64]);
            }
        }
        assert forall|id: u64|
            id < first implies #[trigger] after.proposals.records[id]
            == env.proposals.records[id] by {
            assert(before.proposals.records[id] == env.proposals.records[id]);
        }
    }
}

/// Whether a proposal of several is stored as it was asked for.
pub open spec fn filed_as_asked(
    env: EnvModel,
    config: ConfigModel,
    common: TransferRequestModel,
    transfer: TransferDetails,
    id: u64,
    record: ProposalModel,
) -> bool {
    &&& record.id == id
    &&& record.proposer == common.proposer
    &&& record.recipient == transfer.recipient
    &&& record.token == transfer.token
    &&& record.amount == transfer.amount
    &&& record.status == ProposalStatus::Pending
    &&& record.approvals.len() == 0
    &&& record.abstentions.len() == 0
    &&& record.priority == common.priority
    &&& record.conditions == common.conditions
    &&& record.condition_logic == common.condition_logic
    &&& record.snapshot_signers == config.signers
    &&& record.created_at == ledger_of(env)
    &&& record.stake_amount == 0
    &&& record.unlock_ledger == payable_from(env, config, transfer.amount) as u64
    &&& record.expires_at == lasts_until(env, config, common.priority) as u64
}

/// Each of several transfers that are proposed together becomes a proposal of its own, as it was
/// asked for, pending and without votes; proposals that were there before stay as they were.
pub proof fn law_batched_proposals_are_stored_as_asked(
    env: EnvModel,
    common: TransferRequestModel,
    transfers: Seq<TransferDetails>,
    i: int,
)
    requires
        env.access.config is Some,
        env.proposals.next_id + transfers.len() <= u64::MAX,
        env.batch_propose(common, transfers).1 is Ok,
        0 <= i < transfers.len(),
    ensures
        ({
            let after = env.batch_propose(common, transfers).0;
            let id = (env.proposals.next_id + i) as u64;
            &&& filed_as_asked(
                env,
                env.access.config->0,
                common,
                transfers[i],
                id,
                after.proposals.records[id],
            )
            &&& forall|other: u64|
                other < env.proposals.next_id && env.proposals.records.contains_key(other)
                    ==> #[trigger] after.proposals.records[other] == env.proposals.records[other]
        }),
{
    reveal(EnvModel::create_batch);
    let config = env.access.config->0;
    let counted = env.count_velocity(common.proposer, config.velocity_limit);
    let total = crate::batch_proposals::batch_total(transfers);
    let insurance = env.settled_insurance(
        total as i128,
        env.reputation(common.proposer).score,
        common.insurance_amount,
    )->Ok_0;
    let reserved = counted.collect(
        transfers[0].token,
        common.proposer,
        insurance,
    ).reserve_spending(total as i128);
    let shares = crate::batch_proposals::insurance_shares(insurance, transfers.len());
    lemma_filed_as_asked(reserved, config, common, transfers, shares);
    let filed = reserved.file_each(config, common, transfers, shares);
    let after = env.batch_propose(common, transfers).0;
    assert(after.proposals.records == filed.proposals.records);
    let id = (env.proposals.next_id + i) as u64;
    assert(filed_as_asked(
        reserved,
        config,
        common,
        transfers[i],
        id,
        filed.proposals.records[id],
    ));
}

/// The calls of hooks among some actions, in order.
pub open spec fn hooks_called(actions: Seq<Action>) -> Seq<Action>
    decreases actions.len(),
{
    if actions.len() == 0 {
        Seq::empty()
    } else if actions.last() is CallHook {
        hooks_called(actions.drop_last()).push(actions.last())
    } else {
        hooks_called(actions.drop_last())
    }
}

/// One more action adds at most one call of a hook.
proof fn lemma_hooks_push(actions: Seq<Action>, action: Action)
    ensures
        hooks_called(actions.push(action)) == if action is CallHook {
            hooks_called(actions).push(action)
        } else {
            hooks_called(actions)
        },
{
    assert(actions.push(action).drop_last() =~= actions);
}

/// Hooks are called each once, in order, for the proposal that is executed.
pub proof fn law_hooks_are_called_in_order(
    env: EnvModel,
    hooks: Seq<Address>,
    id: u64,
    is_pre: bool,
)
    ensures
        hooks_called(env.call_hooks(hooks, id, is_pre).actions) == hooks_called(env.actions)
            + Seq::new(
            hooks.len(),
            |i: int| Action::CallHook { hook: hooks[i], proposal_id: id, is_pre },
        ),
    decreases hooks.len(),
{
    let expected = Seq::new(
        hooks.len(),
        |i: int| Action::CallHook { hook: hooks[i], proposal_id: id, is_pre },
    );
    if hooks.len() > 0 {
        let rest = hooks.drop_last();
        law_hooks_are_called_in_order(env, rest, id, is_pre);
        let before = env.call_hooks(rest, id, is_pre);
        let call = Action::CallHook { hook: hooks.last(), proposal_id: id, is_pre };
        lemma_hooks_push(before.actions, call);
        lemma_hooks_push(
            before.actions.push(call),
            Action::Publish(
                crate::env::Event::HookExecuted {
                    hook: hooks.last(),
                    proposal_id: id,
                    is_pre,
                },
            ),
        );
        assert(expected =~= Seq::new(
            rest.len(),
            |i: int| Action::CallHook { hook: rest[i], proposal_id: id, is_pre },
        ).push(call));
    }
    assert(hooks_called(env.call_hooks(hooks, id, is_pre).actions) =~= hooks_called(env.actions)
        + expected);
}

/// Weighing votes leaves members alone.
proof fn lemma_settled_keeps_members(
    env: EnvModel,
    config: ConfigModel,
    signer: Address,
    vote: Vote,
    proposal: ProposalModel,
    count: nat,
)
    ensures
        env.settle_votes(config, signer, vote, proposal, count).members == env.members,
        env.settle_votes(config, signer, vote, proposal, count).proposals.approval_ledgers
            == env.proposals.approval_ledgers,
{
    reveal(EnvModel::settle_votes);
    let told = env.announce_votes(config, proposal, count);
    assert(told.members == env.members && told.proposals == env.proposals);
}

/// What a vote in time that is cast for the signer alone leaves on record.
proof fn lemma_vote_on_record(
    env: EnvModel,
    config: ConfigModel,
    signer: Address,
    id: u64,
    vote: Vote,
)
    requires
        env.proposals.records.contains_key(id),
        env.proposals.records[id].id == id,
        env.proposals.records[id].voting_deadline == 0 || ledger_of(env)
            <= env.proposals.records[id].voting_deadline,
        env.ballot(signer, vote) == seq![signer],
        env.vote_on(config, signer, id, vote).1 is Ok,
    ensures
        ({
            let after = env.vote_on(config, signer, id, vote).0;
            &&& vote == Vote::Approve ==> after.members == env.reputation_on_approval(
                signer,
            ).members
            &&& vote == Vote::Abstain ==> after.members == env.reputation_on_abstention(
                signer,
            ).members
            &&& vote == Vote::Approve ==> after.proposals.approval_ledgers
                == env.proposals.approval_ledgers.insert(
                VoteKey { proposal_id: id, voter: signer },
                env.ledger.sequence as u64,
            )
        }),
{
    reveal(EnvModel::vote_on);
    reveal(EnvModel::accept_votes);
    let before = env.proposal(id)->Ok_0;
    let voters = crate::voting::counted_voters(before, seq![signer]);
    assert(seq![signer].drop_last() =~= Seq::<Address>::empty());
    assert(crate::voting::counted_voters(before, Seq::<Address>::empty()).len() == 0);
    assert(voters =~= seq![signer]);
    crate::voting::lemma_count_votes_frame(env, id, signer, vote, voters);
    let tallied = env.count_votes(id, signer, vote, voters);
    assert(voters.drop_last() =~= Seq::<Address>::empty());
    assert(env.count_votes(id, signer, vote, Seq::<Address>::empty()) == env);
    let noted = match vote {
        Vote::Approve => tallied.with_approval_ledger(id, signer, env.now()),
        Vote::Abstain => tallied,
    };
    let counted = crate::voting::with_votes(before, vote, voters);
    lemma_settled_keeps_members(noted, config, signer, vote, counted, voters.len());
    assert(env.vote_on(config, signer, id, vote).0 == noted.settle_votes(
        config,
        signer,
        vote,
        counted,
        voters.len(),
    ));
}

/// A vote in time of a signer who votes for itself alone counts for its reputation, after that has
/// decayed: an approval adds two to the score, and its ledger is remembered.
pub proof fn law_votes_count_for_the_voter(env: EnvModel, signer: Address, id: u64, vote: Vote)
    requires
        env.access.config is Some,
        env.proposals.records.contains_key(id),
        env.proposals.records[id].id == id,
        env.proposals.records[id].voting_deadline == 0 || ledger_of(env)
            <= env.proposals.records[id].voting_deadline,
        votes_alone(env, signer),
        known_of(env, signer).approvals_given < u32::MAX,
        known_of(env, signer).abstentions_given < u32::MAX,
        known_of(env, signer).participation_count < u32::MAX,
        cast(env, signer, id, vote).1 is Ok,
    ensures
        ({
            let after = cast(env, signer, id, vote).0;
            let decayed = env.current_reputation(signer);
            let now = env.ledger.sequence as u64;
            &&& vote == Vote::Approve ==> known_of(after, signer) == (Reputation {
                score: least(decayed.score + 2, 1_000) as u32,
                approvals_given: (decayed.approvals_given + 1) as u32,
                participation_count: (decayed.participation_count + 1) as u32,
                last_participation_ledger: now,
                ..decayed
            })
            &&& vote == Vote::Abstain ==> known_of(after, signer) == (Reputation {
                abstentions_given: (decayed.abstentions_given + 1) as u32,
                participation_count: (decayed.participation_count + 1) as u32,
                last_participation_ledger: now,
                ..decayed
            })
            &&& vote == Vote::Approve ==> after.proposals.approval_ledgers
                == env.proposals.approval_ledgers.insert(
                VoteKey { proposal_id: id, voter: signer },
                now,
            )
        }),
{
    let config = env.access.config->0;
    assert(env.delegate_of(signer) is None);
    assert(env.delegation_chain(signer, env.longest_chain()).len() == 0);
    assert(env.effective_voter(signer) == signer);
    assert(env.delegators_for(signer).len() == 0);
    assert(env.electorate(signer) == seq![signer]);
    let voting = match vote {
        Vote::Approve => env.decay_reputation(signer),
        Vote::Abstain => env,
    };
    crate::voting::lemma_decay_frame(env, config, signer, env.proposal(id)->Ok_0);
    assert(voting.ballot(signer, vote) == seq![signer]);
    lemma_vote_on_record(voting, config, signer, id, vote);
    if vote == Vote::Approve {
        crate::standing_laws::law_reputation_halves_towards_the_floor(voting, signer);
        assert(known_of(voting, signer) == env.current_reputation(signer));
        assert(voting.current_reputation(signer) == env.current_reputation(signer));
    }
}

} // verus!
