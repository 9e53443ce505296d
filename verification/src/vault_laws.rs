//! What holds of a vault as a whole: limits, roles, amendments, retries and lists.

use vstd::prelude::*;

use crate::env::EnvModel;
use crate::errors::VaultError;
use crate::primitives::{Address, Symbol};
use crate::types::{
    ConfigModel, InitConfigModel, ProposalModel, ProposalStatus, RetryConfig, Role, StakingConfig,
    TransferRequestModel, VelocityConfig, VotingStrategy,
};

verus! {

/// Creating a proposal leaves spending alone, and stores the proposal.
proof fn lemma_created(env: EnvModel, proposal: ProposalModel)
    ensures
        ({
            let after = env.create_proposal(proposal);
            &&& after.ledger == env.ledger
            &&& after.treasury.daily_spent == env.treasury.daily_spent
            &&& after.treasury.weekly_spent == env.treasury.weekly_spent
            &&& after.proposals.records == env.proposals.records.insert(proposal.id, proposal)
        }),
{
    reveal(EnvModel::create_proposal);
}

/// What proposing with the needed funds leads to.
proof fn lemma_funded(
    env: EnvModel,
    config: ConfigModel,
    request: TransferRequestModel,
    insurance: i128,
    stake: i128,
)
    ensures
        env.propose_funded(config, request, insurance, stake).1 matches Ok(id) ==> {
            let after = env.propose_funded(config, request, insurance, stake).0;
            &&& id == env.proposals.next_id
            &&& after.daily_spent(env.day_number()) == (env.daily_spent(env.day_number())
                + request.amount) as i128
            &&& after.weekly_spent(env.week_number()) == (env.weekly_spent(env.week_number())
                + request.amount) as i128
            &&& after.proposals.records.contains_key(id)
            &&& after.proposals.records[id].amount == request.amount
            &&& after.proposals.records[id].recipient == request.recipient
            &&& after.proposals.records[id].status == ProposalStatus::Pending
            &&& after.proposals.records[id].approvals.len() == 0
            &&& after.proposals.records[id].abstentions.len() == 0
            &&& after.proposals.records[id].snapshot_signers == config.signers
        },
{
    reveal(EnvModel::propose_funded);
    let unlock = crate::proposals::unlock_ledger(config, request.amount, env.now());
    let numbered = env.collect(request.token, request.proposer, insurance).collect(
        request.token,
        request.proposer,
        stake,
    ).reserve_spending(request.amount).bump_proposal_id();
    let terms = crate::proposals::ProposalTerms {
        id: env.proposals.next_id,
        insurance,
        stake,
        unlock_ledger: unlock,
        expires_at: (env.now() + crate::constants::PROPOSAL_EXPIRY_LEDGERS) as u64,
    };
    lemma_created(numbered, numbered.new_proposal(config, request, terms));
}

/// A proposal is accepted only from a treasurer or an admin, for a positive amount within the
/// limit of a proposal, and only where what is reserved for the day and the week, with the
/// amount added, stays within their limits. It starts out pending and without votes, and the
/// signers of the moment may vote on it.
pub proof fn law_proposals_stay_within_limits(env: EnvModel, request: TransferRequestModel)
    requires
        env.propose(request).1 is Ok,
    ensures
        ({
            let (after, r) = env.propose(request);
            let config = env.config()->Ok_0;
            let score = env.current_reputation(request.proposer).score;
            let day = env.day_number();
            let week = env.week_number();
            let record = after.proposals.records[r->Ok_0];
            &&& env.may_propose(request.proposer)
            &&& 0 < request.amount <= crate::proposals::proposal_limit(
                config.spending_limit,
                score,
            )
            &&& after.daily_spent(day) == env.daily_spent(day) + request.amount
            &&& after.daily_spent(day) <= crate::proposals::period_limit(config.daily_limit, score)
            &&& after.weekly_spent(week) == env.weekly_spent(week) + request.amount
            &&& after.weekly_spent(week) <= crate::proposals::period_limit(
                config.weekly_limit,
                score,
            )
            &&& after.proposals.records.contains_key(r->Ok_0)
            &&& record.amount == request.amount
            &&& record.status == ProposalStatus::Pending
            &&& record.approvals.len() == 0
            &&& record.abstentions.len() == 0
            &&& record.snapshot_signers == config.signers
        }),
{
    let config = env.config()->Ok_0;
    let rep = env.current_reputation(request.proposer);
    let known = env.count_velocity(request.proposer, config.velocity_limit).with_reputation(
        request.proposer,
        rep,
    );
    let insurance = env.settled_insurance(
        request.amount,
        rep.score,
        request.insurance_amount,
    )->Ok_0;
    lemma_funded(
        known,
        config,
        request,
        insurance,
        env.required_stake(request.amount, rep.score),
    );
}

/// An amended proposal has to be voted on anew, and the reserved spending follows its amount:
/// on the day on which it is amended, an increase stays within the limits.
pub proof fn law_amended_proposals_start_over(
    env: EnvModel,
    proposer: Address,
    proposal_id: u64,
    recipient: Address,
    amount: i128,
    memo: Symbol,
)
    requires
        env.proposal(proposal_id) matches Ok(proposal) && proposal.id == proposal_id
            && proposal.amount > 0,
        env.amend(proposer, proposal_id, recipient, amount, memo).1 is Ok,
    ensures
        ({
            let before = env.proposal(proposal_id)->Ok_0;
            let after = env.amend(proposer, proposal_id, recipient, amount, memo).0;
            let config = env.config()->Ok_0;
            let day = env.day_number();
            &&& before.proposer == proposer
            &&& before.status == ProposalStatus::Pending
            &&& after.proposal(proposal_id) matches Ok(amended) && {
                &&& amended.status == ProposalStatus::Pending
                &&& amended.approvals.len() == 0
                &&& amended.abstentions.len() == 0
                &&& amended.recipient == recipient
                &&& amended.amount == amount
                &&& amended.memo == memo
            }
            &&& 0 < amount <= config.spending_limit
            &&& amount > before.amount ==> after.daily_spent(day) <= config.daily_limit
                && after.weekly_spent(env.week_number()) <= config.weekly_limit
            &&& after.amendment_history(proposal_id).len() == env.amendment_history(
                proposal_id,
            ).len() + 1
        }),
{
}

/// A vault is initialized once: after that, initializing it is refused and changes nothing.
pub proof fn law_vaults_are_initialized_once(
    env: EnvModel,
    admin: Address,
    init: InitConfigModel,
    other: Address,
    again: InitConfigModel,
)
    requires
        env.initialize(admin, init).1 is Ok,
    ensures
        env.initialize(admin, init).0.is_initialized(),
        env.initialize(admin, init).0.initialize(other, again) == (
            env.initialize(admin, init).0,
            Err::<(), _>(VaultError::AlreadyInitialized),
        ),
        env.initialize(admin, init).0.role(admin) == Role::Admin,
{
    crate::governance::lemma_track_roles_frame(
        env.with_config(crate::governance::initial_config(init)).with_voting_strategy(
            VotingStrategy::Simple,
        ).with_role(admin, Role::Admin),
        init.signers,
    );
}

/// A vault that was not initialized accepts a configuration exactly when it has signers, its
/// threshold and its quorum can be reached, and its limits are positive. It then holds that
/// configuration, the administrator has its role, and every later initialization is refused. A
/// refused initialization changes nothing.
pub proof fn law_initialization_follows_the_configuration(
    env: EnvModel,
    admin: Address,
    init: InitConfigModel,
)
    ensures
        ({
            let (after, r) = env.initialize(admin, init);
            let n = init.signers.len();
            &&& env.is_initialized() ==> r == Err::<(), _>(VaultError::AlreadyInitialized)
            &&& !env.is_initialized() ==> (r is Ok <==> {
                &&& n > 0
                &&& 1 <= init.threshold <= n
                &&& init.quorum <= n
                &&& init.spending_limit > 0
                &&& init.daily_limit > 0
                &&& init.weekly_limit > 0
            })
            &&& r is Err ==> after == env
            &&& r is Ok ==> {
                &&& after.role(admin) == Role::Admin
                &&& after.config() == Ok::<ConfigModel, VaultError>(
                    crate::governance::initial_config(init),
                )
                &&& forall|other: Address, again: InitConfigModel| #[trigger]
                    after.initialize(other, again) == (
                        after,
                        Err::<(), VaultError>(VaultError::AlreadyInitialized),
                    )
            }
        }),
{
    crate::governance::lemma_track_roles_frame(
        env.with_config(crate::governance::initial_config(init)).with_voting_strategy(
            VotingStrategy::Simple,
        ).with_role(admin, Role::Admin),
        init.signers,
    );
}

/// Whoever is not an admin cannot change the threshold, the limits, the quorum, the voting
/// strategy, roles, signers, veto addresses or staking rules, nor withdraw from a pool: the call
/// fails and changes nothing.
pub proof fn law_only_admins_govern(
    env: EnvModel,
    caller: Address,
    target: Address,
    token: Address,
    count: u32,
    amounts: (i128, i128, i128),
    role: Role,
    strategy: VotingStrategy,
    rules: StakingConfig,
)
    requires
        env.role(caller) != Role::Admin,
    ensures
        env.update_threshold(caller, count).1 is Err,
        env.update_threshold(caller, count).0 == env,
        env.update_limits(caller, amounts.0, amounts.1, amounts.2).1 is Err,
        env.update_limits(caller, amounts.0, amounts.1, amounts.2).0 == env,
        env.update_quorum(caller, count).1 is Err,
        env.update_quorum(caller, count).0 == env,
        env.update_strategy(caller, strategy).1 is Err,
        env.update_strategy(caller, strategy).0 == env,
        env.assign_role(caller, target, role).1 is Err,
        env.assign_role(caller, target, role).0 == env,
        env.remove_signer(caller, target).1 is Err,
        env.remove_signer(caller, target).0 == env,
        env.add_veto(caller, target).1 is Err,
        env.add_veto(caller, target).0 == env,
        env.remove_veto(caller, target).1 is Err,
        env.remove_veto(caller, target).0 == env,
        env.update_staking(caller, rules).1 is Err,
        env.update_staking(caller, rules).0 == env,
        env.withdraw_insurance(caller, token, target, amounts.0).1 is Err,
        env.withdraw_insurance(caller, token, target, amounts.0).0 == env,
        env.withdraw_stakes(caller, token, target, amounts.0).1 is Err,
        env.withdraw_stakes(caller, token, target, amounts.0).0 == env,
{
}

/// Whether every address with a role other than that of a member is tracked.
pub open spec fn roles_tracked(env: EnvModel) -> bool {
    forall|addr: Address| #[trigger]
        env.role(addr) != Role::Member ==> env.role_index().contains(addr)
}

/// Every address that was ever given a role is tracked, so that the list of roles is complete.
pub proof fn law_roles_stay_tracked(env: EnvModel, admin: Address, target: Address, role: Role)
    requires
        roles_tracked(env),
    ensures
        roles_tracked(env.assign_role(admin, target, role).0),
        env.assign_role(admin, target, role).1 is Ok ==> env.assign_role(
            admin,
            target,
            role,
        ).0.role(target) == role && env.assign_role(admin, target, role).0.role_index().contains(
            target,
        ),
{
    let after = env.assign_role(admin, target, role).0;
    if env.assign_role(admin, target, role).1 is Ok {
        let before = env.role_index();
        assert(after.role_index() == if before.contains(target) {
            before
        } else {
            before.push(target)
        });
        assert(after.role_index().contains(target)) by {
            if !before.contains(target) {
                crate::primitives::lemma_push_contains(before, target, target);
            }
        }
        assert forall|addr: Address| #[trigger] after.role(addr) != Role::Member implies
            after.role_index().contains(addr) by {
            if addr != target {
                assert(after.role(addr) == env.role(addr));
                assert(before.contains(addr));
                crate::primitives::lemma_push_contains(before, target, addr);
            }
        }
    }
}

/// Within the window before any moment, an address gets no more proposals accepted than the
/// velocity limit: where another one is counted, those of the window number at most the limit.
pub proof fn law_velocity_is_limited(env: EnvModel, addr: Address, limit: VelocityConfig)
    requires
        env.velocity_allows(addr, limit),
    ensures
        ({
            let after = env.count_velocity(addr, limit);
            &&& after.recent_proposals(addr, limit.window).len() <= limit.limit
            &&& after.velocity_history(addr).contains(env.ledger.timestamp)
        }),
{
    let after = env.count_velocity(addr, limit);
    let history = after.velocity_history(addr);
    assert(history == env.recent_proposals(addr, limit.window).push(env.ledger.timestamp));
    history.lemma_filter_len(
        |ts: u64| ts > crate::math::clamp_u64(after.ledger.timestamp - limit.window),
    );
    assert(history[history.len() - 1] == env.ledger.timestamp);
}

/// A proposal whose execution keeps failing is retried at most the configured number of times:
/// once that many retries were scheduled, no further one is, and the execution is refused.
pub proof fn law_retries_are_limited(
    env: EnvModel,
    proposal_id: u64,
    rules: RetryConfig,
    error: VaultError,
)
    requires
        env.retries(proposal_id).retry_count <= rules.max_retries,
        rules.max_retries < u32::MAX,
        env.now() + crate::retries::MAX_BACKOFF <= u64::MAX,
    ensures
        ({
            let (after, r) = env.schedule_retry(proposal_id, rules, env.now(), error);
            &&& after.retries(proposal_id).retry_count <= rules.max_retries
            &&& r is Ok <==> env.retries(proposal_id).retry_count < rules.max_retries
            &&& r is Ok ==> after.retries(proposal_id).retry_count == env.retries(
                proposal_id,
            ).retry_count + 1
            &&& rules.enabled && after.retries(proposal_id).retry_count == rules.max_retries
                && rules.max_retries > 0 ==> after.retry_refusal(proposal_id, rules) == Some(
                VaultError::RetryError,
            )
        }),
{
}

/// A page of a list holds no more items than asked for, in the order of the list, and pages that
/// follow each other make up the list.
pub proof fn law_pages_make_up_the_list<T>(list: Seq<T>, offset: nat, limit: nat, more: nat)
    ensures
        ({
            let first = crate::storage::page(list, offset as int, limit as int);
            let second = crate::storage::page(list, (offset + limit) as int, more as int);
            &&& first.len() <= limit
            &&& first + second == crate::storage::page(
                list,
                offset as int,
                (limit + more) as int,
            )
            &&& crate::storage::page(list, 0, list.len() as int) == list
        }),
{
    let first = crate::storage::page(list, offset as int, limit as int);
    let second = crate::storage::page(list, (offset + limit) as int, more as int);
    assert(first + second =~= crate::storage::page(list, offset as int, (limit + more) as int));
    assert(crate::storage::page(list, 0, list.len() as int) =~= list);
}

/// Listed proposals exist and ascend.
pub proof fn law_listed_proposals_ascend(env: EnvModel)
    ensures
        ({
            let ids = env.proposal_ids();
            &&& forall|i: int, j: int| 0 <= i < j < ids.len() ==> ids[i] < ids[j]
            &&& forall|id: u64| #[trigger]
                ids.contains(id) <==> 1 <= id < env.proposals.next_id && env.proposal_exists(id)
        }),
{
    let ids = env.proposal_ids();
    crate::storage::lemma_ids_below(env.proposals.records, env.proposals.next_id as nat);
    assert forall|id: u64| #[trigger] ids.contains(id) <==> 1 <= id < env.proposals.next_id
        && env.proposal_exists(id) by {
        if ids.contains(id) {
            let i = choose|i: int| 0 <= i < ids.len() && ids[i] == id;
            assert(env.proposals.records.contains_key(ids[i]));
        }
    }
}

} // verus!
