//! Scheduled proposals and the conversion between ledgers and time.

use vstd::prelude::*;

use crate::constants::LEDGER_INTERVAL_SECONDS;
use crate::env::{Action, Env, EnvModel, Event};
use crate::errors::VaultError;
use crate::primitives::{list_contains, Address};
use crate::proposals::Outcome;
use crate::storage;
use crate::types::{Proposal, ProposalModel, ProposalStatus};
use crate::VaultDAO;

verus! {

impl EnvModel {
    /// Whether a proposal is scheduled, and for a ledger of a range where one is given.
    pub open spec fn scheduled(self, id: u64, range: Option<(u64, u64)>) -> bool {
        &&& self.proposal(id) matches Ok(proposal)
        &&& proposal.status == ProposalStatus::Scheduled
        &&& match range {
            None => true,
            Some((start, end)) => proposal.execution_time matches Some(time) && start <= time
                <= end,
        }
    }

    /// The scheduled proposals, in ascending order.
    pub open spec fn scheduled_ids(self, range: Option<(u64, u64)>) -> Seq<u64> {
        self.proposal_ids().filter(|id: u64| self.scheduled(id, range))
    }

    /// The ledger for which a proposal is scheduled. Without one it comes last.
    pub open spec fn due(self, id: u64) -> u64 {
        match self.proposal(id) {
            Ok(proposal) => match proposal.execution_time {
                Some(time) => time,
                None => u64::MAX,
            },
            Err(_) => u64::MAX,
        }
    }

    /// Where the first of the earliest proposals stands.
    pub open spec fn earliest(self, ids: Seq<u64>) -> int
        decreases ids.len(),
    {
        if ids.len() <= 1 {
            0
        } else {
            let before = self.earliest(ids.drop_last());
            if self.due(ids.last()) < self.due(ids[before]) {
                ids.len() - 1
            } else {
                before
            }
        }
    }

    /// Proposals ordered by the ledger for which they are scheduled. Among equals the order is
    /// kept.
    pub open spec fn by_time(self, ids: Seq<u64>) -> Seq<u64>
        decreases ids.len(),
    {
        let first = self.earliest(ids);
        if ids.len() == 0 || first < 0 || first >= ids.len() {
            Seq::empty()
        } else {
            seq![ids[first]] + self.by_time(ids.remove(first))
        }
    }

    /// Proposals by their identifiers.
    pub open spec fn proposals_of(self, ids: Seq<u64>) -> Seq<ProposalModel> {
        ids.map_values(|id: u64| self.proposal(id)->Ok_0)
    }

    /// Whether one proposal comes before another: it is due earlier, or at the same time and
    /// was made earlier.
    pub open spec fn comes_before(self, a: u64, b: u64) -> bool {
        self.due(a) < self.due(b) || self.due(a) == self.due(b) && a < b
    }

    /// Why a scheduled proposal cannot be executed, if it cannot.
    pub open spec fn scheduled_refusal(self, proposal: ProposalModel) -> Option<VaultError> {
        if proposal.status != ProposalStatus::Scheduled {
            Some(VaultError::TimelockNotExpired)
        } else {
            match proposal.execution_time {
                None => Some(VaultError::TimelockNotExpired),
                Some(time) => if self.now() < time {
                    Some(VaultError::TimelockNotExpired)
                } else {
                    match self.config() {
                        Err(error) => Some(error),
                        Ok(config) => if proposal.approvals.len() < config.threshold {
                            Some(VaultError::ProposalNotApproved)
                        } else {
                            None
                        },
                    }
                },
            }
        }
    }

    /// What executing a scheduled proposal leaves behind, given whether its transfer and the
    /// return of its insurance went through.
    pub open spec fn execute_scheduled(
        self,
        caller: Address,
        proposal_id: u64,
        transferred: bool,
        insurance_returned: bool,
    ) -> Outcome<()> {
        match self.proposal(proposal_id) {
            Err(error) => (self, Err(error)),
            Ok(proposal) => match self.scheduled_refusal(proposal) {
                Some(error) => (self, Err(error)),
                None => {
                    let tried = self.act(
                        Action::TriedTransfer {
                            token: proposal.token,
                            to: proposal.recipient,
                            amount: proposal.amount,
                            done: transferred,
                        },
                    );
                    if !transferred {
                        (tried.with_proposal(proposal), Err(VaultError::InsufficientBalance))
                    } else {
                        (
                            tried.with_proposal(
                                ProposalModel { status: ProposalStatus::Executed, ..proposal },
                            ).return_scheduled_insurance(
                                proposal,
                                proposal_id,
                                insurance_returned,
                            ).publish(
                                Event::ProposalExecuted {
                                    proposal_id,
                                    executor: caller,
                                    recipient: proposal.recipient,
                                    token: proposal.token,
                                    amount: proposal.amount,
                                    ledger: self.now(),
                                },
                            ).count_execution(
                                proposal.gas_used,
                                crate::math::clamp_u64(self.now() - proposal.created_at),
                            ),
                            Ok(()),
                        )
                    }
                },
            },
        }
    }

    /// The state after the insurance of an executed proposal was given back.
    pub open spec fn return_scheduled_insurance(
        self,
        proposal: ProposalModel,
        proposal_id: u64,
        done: bool,
    ) -> EnvModel {
        if proposal.insurance_amount > 0 {
            self.act(
                Action::TriedTransfer {
                    token: proposal.token,
                    to: proposal.proposer,
                    amount: proposal.insurance_amount,
                    done,
                },
            ).publish(
                Event::InsuranceReturned {
                    proposal_id,
                    proposer: proposal.proposer,
                    amount: proposal.insurance_amount,
                },
            )
        } else {
            self
        }
    }

    /// What cancelling a scheduled proposal leaves behind.
    pub open spec fn cancel_scheduled(self, caller: Address, proposal_id: u64) -> Outcome<()> {
        match self.proposal(proposal_id) {
            Err(error) => (self, Err(error)),
            Ok(proposal) => match self.config() {
                Err(error) => (self, Err(error)),
                Ok(config) => if !config.signers.contains(caller) && proposal.proposer != caller {
                    (self, Err(VaultError::Unauthorized))
                } else if proposal.status != ProposalStatus::Scheduled {
                    (self, Err(VaultError::TimelockNotExpired))
                } else {
                    (
                        self.with_proposal(
                            ProposalModel { status: ProposalStatus::Cancelled, ..proposal },
                        ).publish(
                            Event::ScheduledProposalCancelled { proposal_id, ledger: self.now() },
                        ),
                        Ok(()),
                    )
                },
            },
        }
    }
}

/// The earliest proposal is due no later than any, and earlier than those before it.
proof fn lemma_earliest(env: EnvModel, ids: Seq<u64>)
    requires
        ids.len() > 0,
    ensures
        0 <= env.earliest(ids) < ids.len(),
        forall|j: int|
            0 <= j < ids.len() ==> env.due(ids[env.earliest(ids)]) <= env.due(#[trigger] ids[j]),
        forall|j: int|
            0 <= j < env.earliest(ids) ==> env.due(ids[env.earliest(ids)]) < env.due(
                #[trigger] ids[j],
            ),
    decreases ids.len(),
{
    if ids.len() > 1 {
        let rest = ids.drop_last();
        lemma_earliest(env, rest);
        let before = env.earliest(rest);
        assert forall|j: int| 0 <= j < ids.len() implies env.due(ids[env.earliest(ids)])
            <= env.due(#[trigger] ids[j]) by {
            if j < rest.len() {
                assert(env.due(rest[before]) <= env.due(rest[j]));
            }
        }
        assert forall|j: int| 0 <= j < env.earliest(ids) implies env.due(ids[env.earliest(ids)])
            < env.due(#[trigger] ids[j]) by {
            assert(env.due(rest[before]) <= env.due(rest[j]));
        }
    }
}

/// Ordering keeps the proposals, and puts each before those that come after it.
proof fn lemma_by_time(env: EnvModel, ids: Seq<u64>)
    requires
        forall|i: int, j: int| 0 <= i < j < ids.len() ==> ids[i] < ids[j],
    ensures
        env.by_time(ids).len() == ids.len(),
        forall|id: u64| #[trigger] env.by_time(ids).contains(id) <==> ids.contains(id),
        forall|i: int, j: int|
            0 <= i < j < ids.len() ==> env.comes_before(
                #[trigger] env.by_time(ids)[i],
                #[trigger] env.by_time(ids)[j],
            ),
    decreases ids.len(),
{
    let ordered = env.by_time(ids);
    if ids.len() > 0 {
        lemma_earliest(env, ids);
        let first = env.earliest(ids);
        let rest = ids.remove(first);
        let tail = env.by_time(rest);
        assert forall|i: int, j: int| 0 <= i < j < rest.len() implies rest[i] < rest[j] by {
            let a = if i < first {
                i
            } else {
                i + 1
            };
            let b = if j < first {
                j
            } else {
                j + 1
            };
            assert(rest[i] == ids[a] && rest[j] == ids[b]);
        }
        lemma_by_time(env, rest);
        assert(ordered =~= seq![ids[first]] + tail);
        assert forall|id: u64| #[trigger] ordered.contains(id) <==> ids.contains(id) by {
            if ordered.contains(id) {
                let i = choose|i: int| 0 <= i < ordered.len() && ordered[i] == id;
                if i == 0 {
                    assert(ids[first] == id);
                } else {
                    assert(tail[i - 1] == id);
                    assert(tail.contains(id));
                    let k = choose|k: int| 0 <= k < rest.len() && rest[k] == id;
                    assert(ids[if k < first {
                        k
                    } else {
                        k + 1
                    }] == id);
                }
            }
            if ids.contains(id) {
                let k = choose|k: int| 0 <= k < ids.len() && ids[k] == id;
                if k == first {
                    assert(ordered[0] == id);
                } else {
                    assert(rest[if k < first {
                        k
                    } else {
                        k - 1
                    }] == id);
                    assert(rest.contains(id));
                    assert(tail.contains(id));
                    let i = choose|i: int| 0 <= i < tail.len() && tail[i] == id;
                    assert(ordered[i + 1] == id);
                }
            }
        }
        assert forall|i: int, j: int| 0 <= i < j < ids.len() implies env.comes_before(
            #[trigger] ordered[i],
            #[trigger] ordered[j],
        ) by {
            assert(ordered[j] == tail[j - 1]);
            if i > 0 {
                assert(ordered[i] == tail[i - 1]);
                assert(env.comes_before(tail[i - 1], tail[j - 1]));
            } else {
                assert(tail.contains(tail[j - 1]));
                let k = choose|k: int| 0 <= k < rest.len() && rest[k] == tail[j - 1];
                let m = if k < first {
                    k
                } else {
                    k + 1
                };
                assert(ids[m] == tail[j - 1]);
            }
        }
    }
}

/// The list of scheduled proposals holds each of them once, ordered by the ledger for which it
/// is scheduled, and by identifier among those of the same ledger.
pub proof fn law_scheduled_lists_are_ordered(env: EnvModel, range: Option<(u64, u64)>)
    ensures
        ({
            let list = env.by_time(env.scheduled_ids(range));
            &&& forall|id: u64| #[trigger]
                list.contains(id) <==> 1 <= id < env.proposals.next_id && env.scheduled(id, range)
            &&& forall|i: int, j: int|
                0 <= i < j < list.len() ==> env.comes_before(#[trigger] list[i], #[trigger] list[j])
        }),
{
    let keep = |id: u64| env.scheduled(id, range);
    let all = env.proposal_ids();
    let ids = all.filter(keep);
    let list = env.by_time(ids);
    storage::lemma_ids_below(env.proposals.records, env.proposals.next_id as nat);
    lemma_filter_ascends(all, keep);
    lemma_by_time(env, ids);
    assert forall|id: u64| #[trigger] list.contains(id) <==> 1 <= id < env.proposals.next_id
        && env.scheduled(id, range) by {
        broadcast use vstd::seq_lib::group_filter_ensures;

        if ids.contains(id) {
            all.lemma_filter_contains_rev(keep, id);
            let i = choose|i: int| 0 <= i < ids.len() && ids[i] == id;
            assert(keep(ids[i]));
        }
        if 1 <= id < env.proposals.next_id && env.scheduled(id, range) {
            assert(all.contains(id));
            let i = choose|i: int| 0 <= i < all.len() && all[i] == id;
            assert(keep(all[i]));
            all.lemma_filter_contains(keep, i);
        }
    }
}

/// What is kept of an ascending list ascends.
proof fn lemma_filter_ascends(list: Seq<u64>, keep: spec_fn(u64) -> bool)
    requires
        forall|i: int, j: int| 0 <= i < j < list.len() ==> list[i] < list[j],
    ensures
        forall|i: int, j: int|
            0 <= i < j < list.filter(keep).len() ==> list.filter(keep)[i] < list.filter(keep)[j],
        list.len() > 0 ==> forall|i: int|
            0 <= i < list.filter(keep).len() ==> list.filter(keep)[i] <= list.last(),
    decreases list.len(),
{
    reveal(Seq::filter);
    if list.len() > 0 {
        let rest = list.drop_last();
        lemma_filter_ascends(rest, keep);
        assert forall|i: int| 0 <= i < rest.filter(keep).len() implies rest.filter(keep)[i]
            < list.last() by {
            if rest.len() > 0 {
                assert(rest.last() == list[list.len() - 2]);
                assert(list[list.len() - 2] < list[list.len() - 1]);
            }
        }
    }
}

/// Going from a ledger to its time and back leads to the same ledger; from a time to its ledger
/// and back, to a time that is less than one ledger earlier.
pub proof fn law_ledger_times_round_trip(ledger: u64, timestamp: u64)
    ensures
        ledger * LEDGER_INTERVAL_SECONDS / LEDGER_INTERVAL_SECONDS as int == ledger,
        timestamp - LEDGER_INTERVAL_SECONDS < timestamp / LEDGER_INTERVAL_SECONDS
            * LEDGER_INTERVAL_SECONDS <= timestamp,
{
}

/// A proposal that was executed or cancelled as scheduled is not scheduled any more: neither
/// happens a second time.
pub proof fn law_scheduled_proposals_are_settled_once(
    env: EnvModel,
    caller: Address,
    proposal_id: u64,
    insurance_returned: bool,
)
    requires
        env.proposal(proposal_id) matches Ok(proposal) && proposal.id == proposal_id,
    ensures
        env.execute_scheduled(caller, proposal_id, true, insurance_returned).1 is Ok ==> {
            let after = env.execute_scheduled(caller, proposal_id, true, insurance_returned).0;
            &&& !after.scheduled(proposal_id, None)
            &&& after.execute_scheduled(caller, proposal_id, true, insurance_returned).1 is Err
            &&& after.cancel_scheduled(caller, proposal_id).1 is Err
        },
        env.cancel_scheduled(caller, proposal_id).1 is Ok ==> {
            let after = env.cancel_scheduled(caller, proposal_id).0;
            &&& !after.scheduled(proposal_id, None)
            &&& after.execute_scheduled(caller, proposal_id, true, insurance_returned).1 is Err
            &&& after.cancel_scheduled(caller, proposal_id).1 is Err
        },
{
}

/// Whether a proposal is scheduled, and for a ledger of a range where one is given.
fn is_scheduled(env: &Env, id: u64, range: Option<(u64, u64)>) -> (r: bool)
    ensures
        r == env@.scheduled(id, range),
{
    match storage::get_proposal(env, id) {
        Ok(proposal) => {
            if proposal.status != ProposalStatus::Scheduled {
                return false;
            }
            match range {
                None => true,
                Some((start, end)) => match proposal.execution_time {
                    Some(time) => start <= time && time <= end,
                    None => false,
                },
            }
        },
        Err(_) => false,
    }
}

/// The scheduled proposals, in ascending order.
fn find_scheduled(env: &Env, range: Option<(u64, u64)>) -> (r: Vec<u64>)
    ensures
        r@ == env@.scheduled_ids(range),
{
    let ghost keep = |id: u64| env@.scheduled(id, range);
    let next_id: u64 = storage::get_next_proposal_id(env);
    let mut found: Vec<u64> = Vec::new();
    let mut id: u64 = 1;
    proof {
        reveal(Seq::filter);
    }
    while id < next_id
        invariant
            1 <= id,
            id <= next_id || id == 1,
            keep == (|id: u64| env@.scheduled(id, range)),
            found@ == crate::storage::ids_below(env@.proposals.records, id as nat).filter(keep),
            next_id == env@.proposals.next_id,
        decreases next_id - id,
    {
        proof {
            reveal(Seq::filter);
            let before = crate::storage::ids_below(env@.proposals.records, id as nat);
            assert(before.push(id).drop_last() =~= before);
        }
        if is_scheduled(env, id, range) {
            found.push(id);
        }
        id += 1;
    }
    proof {
        if next_id == 0 {
            assert(env@.proposal_ids() =~= crate::storage::ids_below(env@.proposals.records, 1));
        }
    }
    found
}

/// The ledger for which a proposal is scheduled.
fn due(env: &Env, id: u64) -> (r: u64)
    ensures
        r == env@.due(id),
{
    match storage::get_proposal(env, id) {
        Ok(proposal) => match proposal.execution_time {
            Some(time) => time,
            None => u64::MAX,
        },
        Err(_) => u64::MAX,
    }
}

/// Where the first of the earliest proposals stands.
fn earliest(env: &Env, ids: &Vec<u64>) -> (r: usize)
    requires
        ids@.len() > 0,
    ensures
        r == env@.earliest(ids@),
        r < ids@.len(),
{
    let mut min_idx: usize = 0;
    let mut min_time: u64 = due(env, ids[0]);
    let mut i: usize = 1;
    while i < ids.len()
        invariant
            1 <= i <= ids.len(),
            min_idx < i,
            min_idx == env@.earliest(ids@.take(i as int)),
            min_time == env@.due(ids@[min_idx as int]),
        decreases ids.len() - i,
    {
        let time: u64 = due(env, ids[i]);
        assert(ids@.take(i + 1).drop_last() =~= ids@.take(i as int));
        if time < min_time {
            min_time = time;
            min_idx = i;
        }
        i += 1;
    }
    assert(ids@.take(ids@.len() as int) =~= ids@);
    min_idx
}

/// Proposals ordered by the ledger for which they are scheduled.
fn order_by_time(env: &Env, ids: Vec<u64>) -> (r: Vec<u64>)
    ensures
        r@ == env@.by_time(ids@),
{
    let ghost all = ids@;
    let mut rest = ids;
    let mut sorted: Vec<u64> = Vec::new();
    while rest.len() > 0
        invariant
            sorted@ + env@.by_time(rest@) == env@.by_time(all),
        decreases rest.len(),
    {
        let first: usize = earliest(env, &rest);
        let ghost before = rest@;
        let id: u64 = rest.remove(first);
        assert((sorted@ + (seq![id] + env@.by_time(rest@))) =~= sorted@.push(id) + env@.by_time(
            rest@,
        ));
        assert(env@.by_time(before) == seq![id] + env@.by_time(rest@));
        sorted.push(id);
    }
    assert(sorted@ + env@.by_time(rest@) =~= sorted@);
    sorted
}

/// Proposals by their identifiers.
fn load_proposals(env: &Env, ids: &Vec<u64>) -> (r: Vec<Proposal>)
    requires
        forall|i: int| 0 <= i < ids@.len() ==> env@.proposal_exists(#[trigger] ids@[i]),
    ensures
        r@.map_values(|p: Proposal| p@) == env@.proposals_of(ids@),
{
    let mut proposals: Vec<Proposal> = Vec::new();
    let mut i: usize = 0;
    while i < ids.len()
        invariant
            i <= ids.len(),
            forall|j: int| 0 <= j < ids@.len() ==> env@.proposal_exists(#[trigger] ids@[j]),
            proposals@.map_values(|p: Proposal| p@) =~= env@.proposals_of(ids@.take(i as int)),
        decreases ids.len() - i,
    {
        let ghost before = proposals@;
        if let Ok(proposal) = storage::get_proposal(env, ids[i]) {
            proposals.push(proposal);
            assert(proposals@.map_values(|p: Proposal| p@) =~= before.map_values(
                |p: Proposal| p@,
            ).push(proposal@));
        }
        i += 1;
    }
    assert(ids@.take(ids@.len() as int) =~= ids@);
    proposals
}

/// The scheduled proposals, ordered by the ledger for which they are scheduled.
fn list_scheduled(env: &Env, range: Option<(u64, u64)>) -> (r: Vec<Proposal>)
    ensures
        r@.map_values(|p: Proposal| p@) == env@.proposals_of(
            env@.by_time(env@.scheduled_ids(range)),
        ),
{
    let found = find_scheduled(env, range);
    let sorted = order_by_time(env, found);
    proof {
        law_scheduled_lists_are_ordered(env@, range);
        assert forall|i: int| 0 <= i < sorted@.len() implies env@.proposal_exists(
            #[trigger] sorted@[i],
        ) by {
            assert(sorted@.contains(sorted@[i]));
        }
    }
    load_proposals(env, &sorted)
}

impl VaultDAO {
    /// About the time of a ledger, in seconds.
    pub fn ledger_to_timestamp(ledger: u64) -> (r: u64)
        requires
            ledger * LEDGER_INTERVAL_SECONDS <= u64::MAX,
        ensures
            r == ledger * LEDGER_INTERVAL_SECONDS,
    {
        ledger * LEDGER_INTERVAL_SECONDS
    }

    /// About the ledger at a time in seconds.
    pub fn timestamp_to_ledger(timestamp: u64) -> (r: u64)
        ensures
            r == timestamp / LEDGER_INTERVAL_SECONDS,
    {
        timestamp / LEDGER_INTERVAL_SECONDS
    }

    /// Executes a scheduled proposal that is due, given whether its transfer and the return of
    /// its insurance went through. Anyone may. Where the transfer failed the proposal stays
    /// scheduled.
    pub fn execute_scheduled_proposal(
        env: &mut Env,
        caller: Address,
        proposal_id: u64,
        transferred: bool,
        insurance_returned: bool,
    ) -> (r: Result<(), VaultError>)
        requires
            old(env)@.authorized(caller),
        ensures
            (final(env)@, r) == old(env)@.execute_scheduled(
                caller,
                proposal_id,
                transferred,
                insurance_returned,
            ),
    {
        let mut proposal = storage::get_proposal(env, proposal_id)?;
        let current_ledger: u64 = env.now();
        if proposal.status != ProposalStatus::Scheduled {
            return Err(VaultError::TimelockNotExpired);
        }
        let execution_time: u64 = match proposal.execution_time {
            Some(time) => time,
            None => return Err(VaultError::TimelockNotExpired),
        };
        if current_ledger < execution_time {
            return Err(VaultError::TimelockNotExpired);
        }
        let config = storage::get_config(env)?;
        if (proposal.approvals.len() as u64) < config.threshold as u64 {
            return Err(VaultError::ProposalNotApproved);
        }
        env.act(
            Action::TriedTransfer {
                token: proposal.token,
                to: proposal.recipient,
                amount: proposal.amount,
                done: transferred,
            },
        );
        if !transferred {
            storage::set_proposal(env, &proposal);
            return Err(VaultError::InsufficientBalance);
        }
        proposal.status = ProposalStatus::Executed;
        storage::set_proposal(env, &proposal);
        if proposal.insurance_amount > 0 {
            env.act(
                Action::TriedTransfer {
                    token: proposal.token,
                    to: proposal.proposer,
                    amount: proposal.insurance_amount,
                    done: insurance_returned,
                },
            );
            env.publish(
                Event::InsuranceReturned {
                    proposal_id,
                    proposer: proposal.proposer,
                    amount: proposal.insurance_amount,
                },
            );
        }
        env.publish(
            Event::ProposalExecuted {
                proposal_id,
                executor: caller,
                recipient: proposal.recipient,
                token: proposal.token,
                amount: proposal.amount,
                ledger: current_ledger,
            },
        );
        let execution_time_ledgers: u64 = current_ledger.saturating_sub(proposal.created_at);
        storage::metrics_on_execution(env, proposal.gas_used, execution_time_ledgers);
        Ok(())
    }

    /// Cancels a scheduled proposal. Signers and its proposer may.
    pub fn cancel_scheduled_proposal(env: &mut Env, caller: Address, proposal_id: u64) -> (r: Result<
        (),
        VaultError,
    >)
        requires
            old(env)@.authorized(caller),
        ensures
            (final(env)@, r) == old(env)@.cancel_scheduled(caller, proposal_id),
    {
        let mut proposal = storage::get_proposal(env, proposal_id)?;
        let config = storage::get_config(env)?;
        if !list_contains(&config.signers, &caller) && proposal.proposer != caller {
            return Err(VaultError::Unauthorized);
        }
        if proposal.status != ProposalStatus::Scheduled {
            return Err(VaultError::TimelockNotExpired);
        }
        proposal.status = ProposalStatus::Cancelled;
        storage::set_proposal(env, &proposal);
        let ledger: u64 = env.now();
        env.publish(Event::ScheduledProposalCancelled { proposal_id, ledger });
        Ok(())
    }

    /// The scheduled proposals, ordered by the ledger for which they are scheduled.
    pub fn get_scheduled_proposals(env: &Env) -> (r: Vec<Proposal>)
        ensures
            r@.map_values(|p: Proposal| p@) == env@.proposals_of(
                env@.by_time(env@.scheduled_ids(None)),
            ),
    {
        list_scheduled(env, None)
    }

    /// The proposals scheduled for a ledger from `start_time` to `end_time`, ordered by that
    /// ledger.
    pub fn get_scheduled_proposals_in_range(env: &Env, start_time: u64, end_time: u64) -> (r: Vec<
        Proposal,
    >)
        ensures
            r@.map_values(|p: Proposal| p@) == env@.proposals_of(
                env@.by_time(env@.scheduled_ids(Some((start_time, end_time)))),
            ),
    {
        list_scheduled(env, Some((start_time, end_time)))
    }
}

} // verus!
