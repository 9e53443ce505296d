//! What holds of templates, funding rounds, batches, disputes, comments and annotations.

use vstd::prelude::*;

use crate::books::{is_admin, is_treasurer, ledger_of, listed, moved, spent_this_week, spent_today};
use crate::env::{Action, EnvModel, ProgramsModel, ProposalsModel};
use crate::errors::VaultError;
use crate::primitives::{Address, Symbol};
use crate::proposal_laws::{inside_window, payable_from};
use crate::types::{
    BatchOperation, BatchStatus, BatchTransactionModel, Comment, DisputeModel, DisputeResolution,
    DisputeStatus, FundingMilestone, FundingMilestoneStatus, FundingRoundConfig, FundingRoundModel,
    FundingRoundStatus, Priority, ProposalModel, ProposalStatus, ProposalTemplate,
    TemplateOverrides,
};

verus! {

broadcast use crate::books::lemma_movements_push;

/// Whether an amount lies within the bounds of a template, where there are bounds.
pub open spec fn in_bounds(amount: i128, least: i128, most: i128) -> bool {
    (least > 0 ==> amount >= least) && (most > 0 ==> amount <= most)
}

/// An admin creates a template under a name that is not taken, with a positive amount within its
/// bounds. It is stored as given, in its first version and active.
pub proof fn law_templates_are_created_by_admins(
    env: EnvModel,
    creator: Address,
    name: Symbol,
    description: Symbol,
    recipient: Address,
    token: Address,
    amount: i128,
    memo: Symbol,
    least: i128,
    most: i128,
)
    requires
        env.programs.next_template_id < u64::MAX,
    ensures
        ({
            let (after, r) = env.create_template(
                creator,
                name,
                description,
                recipient,
                token,
                amount,
                memo,
                least,
                most,
            );
            let id = env.programs.next_template_id;
            let taken = env.programs.template_names.contains_key(name);
            let sound = amount > 0 && in_bounds(amount, least, most) && (least > 0 && most > 0
                ==> least <= most);
            let now = env.ledger.sequence as u64;
            &&& r is Ok <==> is_admin(env, creator) && !taken && sound
            &&& r is Err ==> after == env
            &&& !is_admin(env, creator) ==> r == Err::<u64, _>(VaultError::InsufficientRole)
            &&& is_admin(env, creator) && taken ==> r == Err::<u64, _>(
                VaultError::AlreadyInitialized,
            )
            &&& is_admin(env, creator) && !taken && !sound ==> r == Err::<u64, _>(
                VaultError::TemplateValidationFailed,
            )
            &&& moved(env, after, seq![])
            &&& r is Ok ==> r == Ok::<u64, VaultError>(id) && after.programs == (ProgramsModel {
                next_template_id: (id + 1) as u64,
                template_names: env.programs.template_names.insert(name, id),
                templates: env.programs.templates.insert(
                    id,
                    ProposalTemplate {
                        id,
                        name,
                        description,
                        recipient,
                        token,
                        amount,
                        memo,
                        creator,
                        version: 1,
                        is_active: true,
                        created_at: now,
                        updated_at: now,
                        min_amount: least,
                        max_amount: most,
                    },
                ),
                ..env.programs
            })
        }),
{
}

/// A template is changed by its creator or an admin, into the next version, and switched on and
/// off by an admin.
pub proof fn law_templates_are_changed_by_their_creator(
    env: EnvModel,
    caller: Address,
    id: u64,
    description: Symbol,
    recipient: Address,
    amount: i128,
    memo: Symbol,
    least: i128,
    most: i128,
    active: bool,
)
    requires
        env.programs.templates.contains_key(id),
        env.programs.templates[id].id == id,
        env.programs.templates[id].version < u32::MAX,
    ensures
        ({
            let before = env.programs.templates[id];
            let (after, r) = env.update_template(
                caller,
                id,
                description,
                recipient,
                amount,
                memo,
                least,
                most,
            );
            let entitled = caller == before.creator || is_admin(env, caller);
            let sound = amount > 0 && in_bounds(amount, least, most) && (least > 0 && most > 0
                ==> least <= most);
            &&& r is Ok <==> entitled && sound
            &&& r is Err ==> after == env
            &&& !entitled ==> r == Err::<(), _>(VaultError::Unauthorized)
            &&& entitled && !sound ==> r == Err::<(), _>(VaultError::TemplateValidationFailed)
            &&& r is Ok ==> after.programs == (ProgramsModel {
                templates: env.programs.templates.insert(
                    id,
                    ProposalTemplate {
                        description,
                        recipient,
                        amount,
                        memo,
                        min_amount: least,
                        max_amount: most,
                        version: (before.version + 1) as u32,
                        updated_at: env.ledger.sequence as u64,
                        ..before
                    },
                ),
                ..env.programs
            })
        }),
        ({
            let before = env.programs.templates[id];
            let (after, r) = env.deactivate_template(caller, id);
            &&& r is Ok <==> is_admin(env, caller)
            &&& r is Err ==> after == env && r == Err::<(), _>(VaultError::InsufficientRole)
            &&& r is Ok ==> after.programs == (ProgramsModel {
                templates: env.programs.templates.insert(
                    id,
                    ProposalTemplate {
                        is_active: false,
                        updated_at: env.ledger.sequence as u64,
                        ..before
                    },
                ),
                ..env.programs
            })
        }),
        ({
            let before = env.programs.templates[id];
            let (after, r) = env.switch_template(caller, id, active);
            &&& r is Ok <==> is_admin(env, caller)
            &&& r is Err ==> after == env && r == Err::<(), _>(VaultError::InsufficientRole)
            &&& r is Ok ==> after.programs == (ProgramsModel {
                templates: env.programs.templates.insert(
                    id,
                    ProposalTemplate {
                        is_active: active,
                        updated_at: env.ledger.sequence as u64,
                        version: (before.version + 1) as u32,
                        ..before
                    },
                ),
                ..env.programs
            })
        }),
{
}

/// A treasurer or an admin proposes from an active template, with what is overridden in place of
/// what the template says, where the amount lies within the bounds of the template and within all
/// limits. The amount is reserved, and the proposal is pending; nothing is collected.
pub proof fn law_proposals_follow_their_template(
    env: EnvModel,
    proposer: Address,
    template_id: u64,
    overrides: TemplateOverrides,
)
    requires
        env.access.config is Some,
        env.programs.templates.contains_key(template_id),
        env.template_proposal_fits(template_id, overrides),
    ensures
        ({
            let config = env.access.config->0;
            let template = env.programs.templates[template_id];
            let (after, r) = env.propose_from_template(proposer, template_id, overrides);
            let id = env.proposals.next_id;
            let amount = if overrides.override_amount {
                overrides.amount
            } else {
                template.amount
            };
            let seldom = inside_window(
                listed(env.treasury.velocity, proposer),
                env.ledger.timestamp,
                config.velocity_limit.window,
            ) < config.velocity_limit.limit;
            &&& r is Ok <==> {
                &&& template.is_active
                &&& is_treasurer(env, proposer)
                &&& in_bounds(amount, template.min_amount, template.max_amount)
                &&& seldom
                &&& 0 < amount <= config.spending_limit
                &&& spent_today(env) + amount <= config.daily_limit
                &&& spent_this_week(env) + amount <= config.weekly_limit
            }
            &&& r is Err ==> after.proposals == env.proposals
            &&& !template.is_active ==> r == Err::<u64, _>(VaultError::TemplateInactive)
            &&& template.is_active && !is_treasurer(env, proposer) ==> r == Err::<u64, _>(
                VaultError::InsufficientRole,
            )
            &&& moved(env, after, seq![])
            &&& r is Ok ==> {
                let record = after.proposals.records[id];
                &&& r == Ok::<u64, VaultError>(id)
                &&& after.proposals.next_id == id + 1
                &&& after.proposals.records == env.proposals.records.insert(id, record)
                &&& spent_today(after) == spent_today(env) + amount
                &&& spent_this_week(after) == spent_this_week(env) + amount
                &&& record.id == id
                &&& record.proposer == proposer
                &&& record.token == template.token
                &&& record.amount == amount
                &&& record.recipient == if overrides.override_recipient {
                    overrides.recipient
                } else {
                    template.recipient
                }
                &&& record.memo == if overrides.override_memo {
                    overrides.memo
                } else {
                    template.memo
                }
                &&& record.priority == if overrides.override_priority {
                    overrides.priority
                } else {
                    Priority::Normal
                }
                &&& record.status == ProposalStatus::Pending
                &&& record.approvals.len() == 0
                &&& record.abstentions.len() == 0
                &&& record.snapshot_signers == config.signers
                &&& record.unlock_ledger == payable_from(env, config, amount)
                &&& record.insurance_amount == 0
                &&& record.stake_amount == 0
                &&& config.default_voting_deadline == 0 ==> record.expires_at == ledger_of(env)
                    + 100_000
                &&& config.default_voting_deadline > 0 ==> record.expires_at == ledger_of(env)
                    + config.default_voting_deadline
            }
        }),
{
    reveal(EnvModel::create_from_template);
    crate::proposal_laws::law_velocity_counts_the_window(
        env,
        proposer,
        env.access.config->0.velocity_limit,
    );
}

/// What milestones are worth, added up.
pub open spec fn worth(milestones: Seq<FundingMilestone>) -> int {
    milestones.fold_left(0int, |sum: int, m: FundingMilestone| sum + m.amount)
}

/// Worth adds up milestone by milestone.
proof fn lemma_worth(milestones: Seq<FundingMilestone>)
    ensures
        worth(milestones) == crate::funding::milestones_total(milestones),
    decreases milestones.len(),
{
    if milestones.len() > 0 {
        lemma_worth(milestones.drop_last());
    }
}

/// A treasurer or an admin creates a funding round whose milestones are each worth something and
/// together the total, as the rules allow where there are rules. Nothing is paid for it yet.
pub proof fn law_rounds_are_made_of_milestones(
    env: EnvModel,
    proposer: Address,
    recipient: Address,
    token: Address,
    total: i128,
    milestones: Seq<FundingMilestone>,
)
    requires
        env.programs.next_funding_round_id < u64::MAX,
    ensures
        ({
            let (after, r) = env.create_funding_round(
                proposer,
                recipient,
                token,
                total,
                milestones,
            );
            let id = env.programs.next_funding_round_id;
            let rules = env.programs.funding_round_config->0;
            let ruled = env.programs.funding_round_config is Some;
            let sound = {
                &&& total > 0
                &&& milestones.len() > 0
                &&& forall|i: int|
                    0 <= i < milestones.len() ==> (#[trigger] milestones[i]).amount > 0
                &&& worth(milestones) == total
                &&& ruled ==> rules.enabled && rules.min_milestones <= milestones.len()
                    <= rules.max_milestones
                &&& ruled && rules.min_milestone_amount > 0 ==> forall|i: int|
                    0 <= i < milestones.len() ==> (#[trigger] milestones[i]).amount
                        >= rules.min_milestone_amount
            };
            &&& r is Ok <==> is_treasurer(env, proposer) && sound
            &&& r is Err ==> after == env
            &&& !is_treasurer(env, proposer) ==> r == Err::<u64, _>(VaultError::InsufficientRole)
            &&& is_treasurer(env, proposer) && !sound ==> r == Err::<u64, _>(
                VaultError::InvalidAmount,
            )
            &&& moved(env, after, seq![])
            &&& r is Ok ==> r == Ok::<u64, VaultError>(id) && after.programs == (ProgramsModel {
                next_funding_round_id: (id + 1) as u64,
                funding_rounds: env.programs.funding_rounds.insert(
                    id,
                    FundingRoundModel {
                        id,
                        proposal_id: 0,
                        recipient,
                        token,
                        total_amount: total,
                        released_amount: 0,
                        milestones,
                        status: FundingRoundStatus::Pending,
                        created_at: env.ledger.timestamp,
                        approved_at: 0,
                        finalized_at: 0,
                    },
                ),
                ..env.programs
            })
        }),
{
    lemma_worth(milestones);
}

/// An admin approves a pending round, and cancels one that is not over. Its recipient submits a
/// pending milestone of an active round. None of these pays anything.
pub proof fn law_rounds_are_approved_and_submitted(
    env: EnvModel,
    caller: Address,
    id: u64,
    index: u32,
)
    requires
        env.programs.funding_rounds.contains_key(id),
        env.programs.funding_rounds[id].id == id,
    ensures
        ({
            let before = env.programs.funding_rounds[id];
            let (after, r) = env.approve_funding_round(caller, id);
            &&& r is Ok <==> is_admin(env, caller) && before.status == FundingRoundStatus::Pending
            &&& r is Err ==> after == env
            &&& !is_admin(env, caller) ==> r == Err::<(), _>(VaultError::InsufficientRole)
            &&& moved(env, after, seq![])
            &&& r is Ok ==> after.programs == (ProgramsModel {
                funding_rounds: env.programs.funding_rounds.insert(
                    id,
                    FundingRoundModel {
                        status: FundingRoundStatus::Active,
                        approved_at: env.ledger.timestamp,
                        ..before
                    },
                ),
                ..env.programs
            })
        }),
        ({
            let before = env.programs.funding_rounds[id];
            let (after, r) = env.cancel_funding_round(caller, id);
            &&& r is Ok <==> is_admin(env, caller) && before.status
                != FundingRoundStatus::Completed && before.status != FundingRoundStatus::Cancelled
            &&& r is Err ==> after == env
            &&& moved(env, after, seq![])
            &&& r is Ok ==> after.programs == (ProgramsModel {
                funding_rounds: env.programs.funding_rounds.insert(
                    id,
                    FundingRoundModel {
                        status: FundingRoundStatus::Cancelled,
                        finalized_at: env.ledger.timestamp,
                        ..before
                    },
                ),
                ..env.programs
            })
        }),
        ({
            let before = env.programs.funding_rounds[id];
            let (after, r) = env.submit_milestone(caller, id, index);
            let own = caller == before.recipient;
            &&& r is Ok <==> own && before.status == FundingRoundStatus::Active && index
                < before.milestones.len() && before.milestones[index as int].status
                == FundingMilestoneStatus::Pending
            &&& r is Err ==> after == env
            &&& !own ==> r == Err::<(), _>(VaultError::Unauthorized)
            &&& moved(env, after, seq![])
            &&& r is Ok ==> after.programs == (ProgramsModel {
                funding_rounds: env.programs.funding_rounds.insert(
                    id,
                    FundingRoundModel {
                        milestones: before.milestones.update(
                            index as int,
                            FundingMilestone {
                                status: FundingMilestoneStatus::Submitted,
                                submitted_at: env.ledger.timestamp,
                                ..before.milestones[index as int]
                            },
                        ),
                        ..before
                    },
                ),
                ..env.programs
            })
        }),
{
}

/// An admin verifies a submitted milestone of an active round: its amount is paid to the recipient
/// of the round, once, and counts as released. The round is completed with its last milestone.
pub proof fn law_verified_milestones_are_paid(env: EnvModel, verifier: Address, id: u64, index: u32)
    requires
        env.programs.funding_rounds.contains_key(id),
        env.programs.funding_rounds[id].id == id,
        index < env.programs.funding_rounds[id].milestones.len(),
        i128::MIN <= env.programs.funding_rounds[id].released_amount
            + env.programs.funding_rounds[id].milestones[index as int].amount <= i128::MAX,
    ensures
        ({
            let before = env.programs.funding_rounds[id];
            let milestone = before.milestones[index as int];
            let (after, r) = env.verify_milestone(verifier, id, index);
            &&& r is Ok <==> is_admin(env, verifier) && before.status == FundingRoundStatus::Active
                && milestone.status == FundingMilestoneStatus::Submitted
            &&& r is Err ==> after == env
            &&& !is_admin(env, verifier) ==> r == Err::<i128, _>(VaultError::InsufficientRole)
            &&& r is Ok ==> {
                let round = after.programs.funding_rounds[id];
                let all = forall|i: int|
                    0 <= i < round.milestones.len() ==> (#[trigger] round.milestones[i]).status
                        == FundingMilestoneStatus::Verified;
                &&& r == Ok::<i128, VaultError>(milestone.amount)
                &&& moved(
                    env,
                    after,
                    seq![
                        Action::Transfer {
                            token: before.token,
                            to: before.recipient,
                            amount: milestone.amount,
                        },
                    ],
                )
                &&& after.programs == (ProgramsModel {
                    funding_rounds: env.programs.funding_rounds.insert(id, round),
                    ..env.programs
                })
                &&& round == (FundingRoundModel {
                    milestones: before.milestones.update(
                        index as int,
                        FundingMilestone {
                            status: FundingMilestoneStatus::Verified,
                            verified_at: env.ledger.timestamp,
                            verified_by: Some(verifier),
                            ..milestone
                        },
                    ),
                    released_amount: (before.released_amount + milestone.amount) as i128,
                    status: round.status,
                    finalized_at: round.finalized_at,
                    ..before
                })
                &&& round.status == if all {
                    FundingRoundStatus::Completed
                } else {
                    FundingRoundStatus::Active
                }
                &&& round.finalized_at == if all {
                    env.ledger.timestamp
                } else {
                    before.finalized_at
                }
            }
        }),
{
}

/// A signer sets the rules for funding rounds.
pub proof fn law_funding_rules_are_set_by_signers(
    env: EnvModel,
    signer: Address,
    rules: FundingRoundConfig,
)
    requires
        env.access.config is Some,
    ensures
        ({
            let (after, r) = env.change_funding_round_config(signer, rules);
            &&& r is Ok <==> env.access.config->0.signers.contains(signer)
            &&& r is Err ==> after == env && r == Err::<(), _>(VaultError::NotASigner)
            &&& r is Ok ==> after.programs == (ProgramsModel {
                funding_round_config: Some(rules),
                ..env.programs
            })
        }),
{
}

/// The amounts of operations added up.
pub open spec fn operations_sum(operations: Seq<BatchOperation>) -> int {
    operations.fold_left(0int, |sum: int, op: BatchOperation| sum + op.amount)
}

/// Sums add up operation by operation.
proof fn lemma_operations_sum(operations: Seq<BatchOperation>)
    ensures
        operations_sum(operations) == crate::batches::operations_total(operations),
    decreases operations.len(),
{
    if operations.len() > 0 {
        lemma_operations_sum(operations.drop_last());
    }
}

/// A batch of operations is created with one to thirty-two operations, each for a positive amount,
/// and is stored as given.
pub proof fn law_batches_are_opened(
    env: EnvModel,
    creator: Address,
    operations: Seq<BatchOperation>,
    memo: Symbol,
)
    requires
        env.programs.last_batch_id < u64::MAX,
    ensures
        ({
            let (after, r) = env.open_batch(creator, operations, memo);
            let id = (env.programs.last_batch_id + 1) as u64;
            let sized = 1 <= operations.len() <= 32;
            let paying = forall|i: int|
                0 <= i < operations.len() ==> (#[trigger] operations[i]).amount > 0;
            &&& r is Ok <==> sized && paying
            &&& r is Err ==> after == env
            &&& !sized ==> r == Err::<u64, _>(VaultError::BatchTooLarge)
            &&& sized && !paying ==> r == Err::<u64, _>(VaultError::InvalidAmount)
            &&& moved(env, after, seq![])
            &&& r is Ok ==> r == Ok::<u64, VaultError>(id) && after.programs == (ProgramsModel {
                last_batch_id: id,
                batches: env.programs.batches.insert(
                    id,
                    BatchTransactionModel {
                        id,
                        creator,
                        operations,
                        status: BatchStatus::Pending,
                        created_at: env.ledger.timestamp,
                        memo,
                    },
                ),
                ..env.programs
            })
        }),
{
}

/// A treasurer or an admin executes a pending batch. It succeeds as a whole exactly when all of its
/// operations together fit what is left of the day, and then counts them all; otherwise nothing
/// is counted. It is not executed again.
pub proof fn law_batches_succeed_as_a_whole(env: EnvModel, executor: Address, id: u64)
    requires
        env.access.config is Some,
        env.programs.batches.contains_key(id),
        env.programs.batches[id].id == id,
        1 <= env.programs.batches[id].operations.len() <= 32,
        forall|i: int|
            0 <= i < env.programs.batches[id].operations.len() ==> (
            #[trigger] env.programs.batches[id].operations[i]).amount > 0,
        spent_today(env) >= 0,
    ensures
        ({
            let config = env.access.config->0;
            let before = env.programs.batches[id];
            let (after, r) = env.execute_batch(executor, id);
            let total = operations_sum(before.operations);
            let fits = spent_today(env) + total <= config.daily_limit;
            let entitled = is_treasurer(env, executor);
            let pending = before.status == BatchStatus::Pending;
            &&& r is Ok <==> entitled && pending
            &&& r is Err ==> after == env
            &&& !entitled ==> r is Err && r->Err_0 == VaultError::InsufficientRole
            &&& entitled && !pending ==> r is Err && r->Err_0 == VaultError::ProposalNotPending
            &&& r is Ok ==> {
                &&& r->Ok_0.batch_id == id
                &&& r->Ok_0.success == fits
                &&& fits ==> r->Ok_0.successful_ops == before.operations.len()
                    && r->Ok_0.failed_ops == 0
                &&& r->Ok_0.successful_ops + r->Ok_0.failed_ops == before.operations.len()
                &&& spent_today(after) == spent_today(env) + if fits {
                    total
                } else {
                    0
                }
                &&& after.treasury.weekly_spent == env.treasury.weekly_spent
                &&& moved(env, after, seq![])
                &&& after.programs.batches == env.programs.batches.insert(
                    id,
                    BatchTransactionModel {
                        status: if fits {
                            BatchStatus::Completed
                        } else {
                            BatchStatus::RolledBack
                        },
                        ..before
                    },
                )
            }
        }),
{
    reveal(EnvModel::finish_batch);
    let batch = env.programs.batches[id];
    let config = env.access.config->0;
    let started = env.with_batch(BatchTransactionModel { status: BatchStatus::Executing, ..batch });
    lemma_operations_sum(batch.operations);
    crate::batches::law_batches_complete_when_they_fit(
        started,
        batch.operations,
        config.daily_limit,
    );
    crate::batches::law_batches_keep_the_daily_limit(started, batch.operations, config.daily_limit);
    lemma_run_frame(started, batch.operations, config.daily_limit);
    let run = started.run_operations(batch.operations, config.daily_limit);
    lemma_rollback_frame(run.env, run.paid);
    assert(batch.operations.take(batch.operations.len() as int) =~= batch.operations);
    if is_treasurer(env, executor) && batch.status == BatchStatus::Pending && !run.complete {
        crate::batches::law_rolled_back_batches_spend_nothing(env, executor, id);
    }
}

/// Running operations counts them towards the day, and does nothing else.
proof fn lemma_run_frame(env: EnvModel, operations: Seq<BatchOperation>, limit: i128)
    ensures
        ({
            let run = env.run_operations(operations, limit);
            &&& run.paid.len() <= operations.len()
            &&& run.complete ==> run.paid.len() == operations.len()
            &&& run.env.actions == env.actions
            &&& run.env.ledger == env.ledger
            &&& run.env.programs == env.programs
            &&& run.env.treasury.weekly_spent == env.treasury.weekly_spent
        }),
    decreases operations.len(),
{
    if operations.len() > 0 {
        lemma_run_frame(env, operations.drop_last(), limit);
    }
}

/// Rolling back gives back the spending of the day, and does nothing else.
proof fn lemma_rollback_frame(env: EnvModel, paid: Seq<(Address, i128)>)
    ensures
        ({
            let after = env.rollback_batch(paid);
            &&& after.actions == env.actions
            &&& after.ledger == env.ledger
            &&& after.programs == env.programs
            &&& after.treasury.weekly_spent == env.treasury.weekly_spent
        }),
    decreases paid.len(),
{
    if paid.len() > 0 {
        lemma_rollback_frame(
            env.reduce_daily_spent(env.day_number(), paid.last().1),
            paid.drop_last(),
        );
    }
}

/// An admin takes the amount of an executed proposal back from its recipient, once.
pub proof fn law_executions_are_reversed_once(env: EnvModel, admin: Address, id: u64)
    ensures
        ({
            let (after, r) = env.rollback_execution(admin, id);
            let known = env.proposals.snapshots.contains_key(id);
            &&& r is Ok <==> is_admin(env, admin) && known
            &&& r is Err ==> after == env
            &&& !is_admin(env, admin) ==> r == Err::<(), _>(VaultError::InsufficientRole)
            &&& is_admin(env, admin) && !known ==> r == Err::<(), _>(VaultError::ProposalNotFound)
            &&& r is Ok ==> {
                let proposal = env.proposals.snapshots[id].proposal;
                &&& moved(
                    env,
                    after,
                    seq![
                        Action::TransferToVault {
                            token: proposal.token,
                            from: proposal.recipient,
                            amount: proposal.amount,
                        },
                    ],
                )
                &&& after.proposals.snapshots == env.proposals.snapshots.remove(id)
                &&& after.rollback_execution(admin, id).1 is Err
            }
        }),
{
}

/// A dispute over a proposal that is not over is raised by a party of the escrow, or by a signer
/// where no escrow is concerned. It is filed as given and listed with the proposal.
pub proof fn law_disputes_are_raised_by_the_parties(
    env: EnvModel,
    disputer: Address,
    proposal_id: u64,
    escrow_id: Option<u64>,
    reason: Symbol,
    evidence: Seq<Seq<u8>>,
)
    requires
        env.access.config is Some,
        env.programs.next_dispute_id < u64::MAX,
        env.proposals.records.contains_key(proposal_id),
        escrow_id matches Some(id) ==> env.payments.escrows.contains_key(id),
    ensures
        ({
            let (after, r) = env.raise_dispute(disputer, proposal_id, escrow_id, reason, evidence);
            let proposal = env.proposals.records[proposal_id];
            let entitled = match escrow_id {
                Some(id) => disputer == env.payments.escrows[id].funder || disputer
                    == env.payments.escrows[id].recipient,
                None => env.access.config->0.signers.contains(disputer),
            };
            let open = proposal.status != ProposalStatus::Executed && proposal.status
                != ProposalStatus::Cancelled;
            let id = env.programs.next_dispute_id;
            &&& r is Ok <==> entitled && open
            &&& r is Err ==> after == env
            &&& !entitled && escrow_id is Some ==> r == Err::<u64, _>(VaultError::Unauthorized)
            &&& !entitled && escrow_id is None ==> r == Err::<u64, _>(VaultError::NotASigner)
            &&& entitled && !open ==> r == Err::<u64, _>(VaultError::ProposalAlreadyExecuted)
            &&& moved(env, after, seq![])
            &&& r is Ok ==> {
                &&& r == Ok::<u64, VaultError>(id)
                &&& after.programs.next_dispute_id == id + 1
                &&& after.programs.disputes == env.programs.disputes.insert(
                    id,
                    DisputeModel {
                        id,
                        proposal_id,
                        disputer,
                        reason,
                        evidence,
                        status: DisputeStatus::Filed,
                        resolution: DisputeResolution::Dismissed,
                        arbitrator: disputer,
                        filed_at: env.ledger.sequence as u64,
                        resolved_at: 0,
                    },
                )
                &&& listed(after.programs.proposal_disputes, proposal_id) == listed(
                    env.programs.proposal_disputes,
                    proposal_id,
                ).push(id)
            }
        }),
{
}

/// An admin resolves a dispute that is open, in the way that is given; a dispute that is dismissed
/// is marked so.
pub proof fn law_disputes_are_resolved_by_admins(
    env: EnvModel,
    admin: Address,
    id: u64,
    resolution: DisputeResolution,
)
    requires
        env.access.config is Some,
        env.programs.disputes.contains_key(id),
        env.programs.disputes[id].id == id,
    ensures
        ({
            let before = env.programs.disputes[id];
            let (after, r) = env.resolve_dispute(admin, id, resolution);
            let open = before.status != DisputeStatus::Resolved && before.status
                != DisputeStatus::Dismissed;
            &&& r is Ok <==> is_admin(env, admin) && open
            &&& r is Err ==> after == env
            &&& !is_admin(env, admin) ==> r == Err::<(), _>(VaultError::Unauthorized)
            &&& is_admin(env, admin) && !open ==> r == Err::<(), _>(
                VaultError::ProposalAlreadyExecuted,
            )
            &&& moved(env, after, seq![])
            &&& r is Ok ==> after.programs == (ProgramsModel {
                disputes: env.programs.disputes.insert(
                    id,
                    DisputeModel {
                        status: if resolution == DisputeResolution::Dismissed {
                            DisputeStatus::Dismissed
                        } else {
                            DisputeStatus::Resolved
                        },
                        resolution,
                        arbitrator: admin,
                        resolved_at: env.ledger.sequence as u64,
                        ..before
                    },
                ),
                ..env.programs
            })
        }),
{
}

/// Anyone comments on a proposal that exists, in answer to a comment that exists where it answers
/// one; only the author edits a comment, and only its text changes.
pub proof fn law_comments_belong_to_their_author(
    env: EnvModel,
    author: Address,
    proposal_id: u64,
    text: Symbol,
    parent: u64,
    id: u64,
)
    requires
        env.proposals.next_comment_id < u64::MAX,
        env.proposals.comments.contains_key(id),
        env.proposals.comments[id].id == id,
    ensures
        ({
            let (after, r) = env.add_comment(author, proposal_id, text, parent);
            let next = env.proposals.next_comment_id;
            &&& r is Ok <==> env.proposals.records.contains_key(proposal_id) && (parent == 0
                || env.proposals.comments.contains_key(parent))
            &&& r is Err ==> after == env && r == Err::<u64, _>(VaultError::ProposalNotFound)
            &&& r is Ok ==> {
                &&& r == Ok::<u64, VaultError>(next)
                &&& after.proposals == (ProposalsModel {
                    next_comment_id: (next + 1) as u64,
                    comments: env.proposals.comments.insert(
                        next,
                        Comment {
                            id: next,
                            proposal_id,
                            author,
                            text,
                            parent_id: parent,
                            created_at: env.ledger.sequence as u64,
                            edited_at: 0,
                        },
                    ),
                    proposal_comments: env.proposals.proposal_comments.insert(
                        proposal_id,
                        listed(env.proposals.proposal_comments, proposal_id).push(next),
                    ),
                    ..env.proposals
                })
            }
        }),
        ({
            let before = env.proposals.comments[id];
            let (after, r) = env.edit_comment(author, id, text);
            &&& r is Ok <==> author == before.author
            &&& r is Err ==> after == env && r == Err::<(), _>(VaultError::Unauthorized)
            &&& r is Ok ==> after.proposals == (ProposalsModel {
                comments: env.proposals.comments.insert(
                    id,
                    Comment { text, edited_at: env.ledger.sequence as u64, ..before },
                ),
                ..env.proposals
            })
        }),
{
}

/// An admin or the proposer attaches to a proposal, up to ten texts of 46 to 128 bytes, none of
/// them twice, and detaches by place; and sets up to sixteen entries of metadata, of up to 256
/// bytes each. Nothing else about the proposal changes.
pub proof fn law_annotations_are_kept_by_the_proposer(
    env: EnvModel,
    caller: Address,
    id: u64,
    text: Seq<u8>,
    index: u32,
    key: Symbol,
    tag: Symbol,
)
    requires
        env.proposals.records.contains_key(id),
        env.proposals.records[id].id == id,
    ensures
        ({
            let entitled = caller == env.proposals.records[id].proposer || is_admin(env, caller);
            let held = listed(env.proposals.attachments, id);
            let (added, p) = env.attach(caller, id, text);
            let (dropped, q) = env.detach(caller, id, index);
            &&& p is Ok <==> entitled && 46 <= text.len() <= 128 && held.len() < 10
                && !held.contains(text)
            &&& q is Ok <==> entitled && index < held.len()
            &&& p is Err ==> added == env
            &&& q is Err ==> dropped == env
            &&& !entitled ==> p == Err::<(), _>(VaultError::Unauthorized) && q == Err::<(), _>(
                VaultError::Unauthorized,
            )
            &&& p is Ok ==> added.proposals == (ProposalsModel {
                attachments: env.proposals.attachments.insert(id, held.push(text)),
                ..env.proposals
            })
            &&& q is Ok ==> dropped.proposals == (ProposalsModel {
                attachments: env.proposals.attachments.insert(id, held.remove(index as int)),
                ..env.proposals
            })
        }),
        ({
            let before = env.proposals.records[id];
            let entitled = caller == before.proposer || is_admin(env, caller);
            let (set, p) = env.set_metadata(caller, id, key, text);
            let (removed, q) = env.remove_metadata(caller, id, key);
            &&& p is Ok <==> entitled && 1 <= text.len() <= 256 && (before.metadata.contains_key(
                key,
            ) || before.metadata.dom().len() < 16)
            &&& q is Ok <==> entitled
            &&& p is Err ==> set == env
            &&& q is Err ==> removed == env
            &&& p is Ok ==> {
                let record = set.proposals.records[id];
                &&& set.proposals.records == env.proposals.records.insert(id, record)
                &&& record == (ProposalModel {
                    metadata: before.metadata.insert(key, text),
                    attachments: record.attachments,
                    ..before
                })
            }
            &&& q is Ok ==> {
                let record = removed.proposals.records[id];
                &&& removed.proposals.records == env.proposals.records.insert(id, record)
                &&& record == (ProposalModel {
                    metadata: before.metadata.remove(key),
                    attachments: record.attachments,
                    ..before
                })
            }
        }),
        ({
            let before = env.proposals.records[id];
            let entitled = caller == before.proposer || is_admin(env, caller);
            let empty = tag.hi == 0 && tag.lo == 0;
            let (tagged, p) = env.tag(caller, id, tag);
            &&& p is Ok <==> entitled && !empty && (before.tags.contains(tag) || before.tags.len()
                < 10)
            &&& p is Err || before.tags.contains(tag) ==> tagged == env
            &&& p is Ok && !before.tags.contains(tag) ==> {
                let record = tagged.proposals.records[id];
                &&& tagged.proposals.records == env.proposals.records.insert(id, record)
                &&& record == (ProposalModel {
                    tags: before.tags.push(tag),
                    attachments: record.attachments,
                    ..before
                })
            }
        }),
{
}

} // verus!
