//! Delegation of votes between signers.

use vstd::prelude::*;

use crate::env::{Env, EnvModel};
use crate::errors::VaultError;
use crate::primitives::{list_contains, Address};
use crate::proposals::Outcome;
use crate::storage;
use crate::types::{Delegation, DelegationHistory};
use crate::VaultDAO;

verus! {

/// How many delegations a chain holds at most.
pub const MAX_DELEGATION_DEPTH: usize = 10;

/// How many delegations deep votes are cast for others.
pub const MAX_REPRESENTATION_DEPTH: u32 = 5;

impl EnvModel {
    /// Whether a delegation is in force.
    pub open spec fn in_force(self, delegation: Delegation) -> bool {
        delegation.is_active && (delegation.expiry_ledger == 0 || self.now()
            <= delegation.expiry_ledger)
    }

    /// The one to whom an address delegates at present, if any.
    pub open spec fn delegate_of(self, addr: Address) -> Option<Address> {
        match self.delegation(addr) {
            Some(delegation) => if self.in_force(delegation) {
                Some(delegation.delegate)
            } else {
                None
            },
            None => None,
        }
    }

    /// The first delegates, up to `limit`, that are reached from an address by following
    /// delegations.
    pub open spec fn delegation_chain(self, addr: Address, limit: nat) -> Seq<Address>
        decreases limit,
    {
        if limit == 0 {
            Seq::empty()
        } else {
            match self.delegate_of(addr) {
                Some(delegate) => seq![delegate] + self.delegation_chain(
                    delegate,
                    (limit - 1) as nat,
                ),
                None => Seq::empty(),
            }
        }
    }

    /// The voters whom a signer represents, added to `voters`: those who delegate to it, in
    /// order, each followed by those whom it represents in turn.
    pub open spec fn represented(self, signer: Address, voters: Seq<Address>, depth: nat) -> Seq<
        Address,
    >
        decreases MAX_REPRESENTATION_DEPTH + 1 - depth, 1nat, 0nat,
    {
        if depth >= MAX_REPRESENTATION_DEPTH {
            voters
        } else {
            self.represented_by_each(self.delegators_for(signer), voters, depth)
        }
    }

    /// Those of `delegators` who delegate at present and are not among `voters` yet, added to
    /// `voters`, each followed by those whom it represents in turn.
    pub open spec fn represented_by_each(
        self,
        delegators: Seq<Address>,
        voters: Seq<Address>,
        depth: nat,
    ) -> Seq<Address>
        decreases MAX_REPRESENTATION_DEPTH + 1 - depth, 0nat, delegators.len(),
    {
        if delegators.len() == 0 || depth >= MAX_REPRESENTATION_DEPTH {
            voters
        } else {
            let delegator = delegators[0];
            let more = if !voters.contains(delegator) && self.delegate_of(delegator) is Some {
                self.represented(delegator, voters.push(delegator), depth + 1)
            } else {
                voters
            };
            self.represented_by_each(delegators.skip(1), more, depth)
        }
    }

    /// All in whose name a signer votes: the signer first.
    pub open spec fn electorate(self, signer: Address) -> Seq<Address> {
        self.represented(signer, seq![signer], 0)
    }

    /// How many delegations a chain can be made of.
    pub open spec fn longest_chain(self) -> nat {
        crate::math::max_int(
            self.members.delegations.dom().len() as int,
            MAX_DELEGATION_DEPTH + 1,
        ) as nat
    }

    /// The one under whom the approval of a signer is recorded: the end of its delegation
    /// chain, or the signer where it does not delegate.
    pub open spec fn effective_voter(self, signer: Address) -> Address {
        let chain = self.delegation_chain(signer, self.longest_chain());
        if chain.len() == 0 {
            signer
        } else {
            chain.last()
        }
    }

    /// All in whose name a signer approves: the effective voter first, then those whom it
    /// represents. A signer who delegates is not among them, as its approval is recorded under
    /// the effective voter.
    pub open spec fn approval_electorate(self, signer: Address) -> Seq<Address> {
        let voter = self.effective_voter(signer);
        if voter == signer {
            self.electorate(signer)
        } else {
            crate::primitives::without(self.electorate(voter), signer)
        }
    }

    /// Why a delegation is refused, if it is. Chains that lead back to the delegator, or are
    /// too long, are refused.
    pub open spec fn delegation_refusal(self, delegator: Address, delegate: Address) -> Option<
        VaultError,
    > {
        if delegator == delegate {
            Some(VaultError::InvalidAmount)
        } else {
            match self.config() {
                Err(error) => Some(error),
                Ok(config) => if !config.signers.contains(delegator) || !config.signers.contains(
                    delegate,
                ) {
                    Some(VaultError::NotASigner)
                } else if self.delegation(delegate) matches Some(existing) && existing.delegate
                    == delegator {
                    Some(VaultError::Unauthorized)
                } else {
                    let chain = self.delegation_chain(delegate, MAX_DELEGATION_DEPTH as nat);
                    if chain.len() >= MAX_DELEGATION_DEPTH || chain.contains(delegator) {
                        Some(VaultError::Unauthorized)
                    } else {
                        None
                    }
                },
            }
        }
    }

    /// The state after a change of delegation was recorded.
    pub open spec fn record_delegation(
        self,
        delegator: Address,
        previous_delegate: Address,
        new_delegate: Address,
    ) -> EnvModel {
        self.bump_next_delegation_id().delegation_history_push(
            DelegationHistory {
                id: self.members.next_delegation_id,
                delegator,
                previous_delegate,
                new_delegate,
                changed_at: self.now(),
            },
        )
    }

    /// What delegating leaves behind.
    pub open spec fn delegate(self, delegator: Address, delegate: Address, expiry_ledger: u64) -> 
        Outcome<()> {
        match self.delegation_refusal(delegator, delegate) {
            Some(error) => (self, Err(error)),
            None => {
                let previous = match self.delegation(delegator) {
                    Some(existing) => existing.delegate,
                    None => delegator,
                };
                let delegation = Delegation {
                    delegator,
                    delegate,
                    created_at: self.now(),
                    expiry_ledger,
                    is_active: true,
                };
                (
                    self.with_delegation(delegation).record_delegation(
                        delegator,
                        previous,
                        delegate,
                    ),
                    Ok(()),
                )
            },
        }
    }

    /// What revoking a delegation leaves behind.
    pub open spec fn revoke(self, delegator: Address) -> Outcome<()> {
        match self.delegation(delegator) {
            Some(existing) => (
                self.without_delegation(delegator).record_delegation(
                    delegator,
                    existing.delegate,
                    delegator,
                ),
                Ok(()),
            ),
            None => (self, Err(VaultError::ProposalNotFound)),
        }
    }

    /// Whether delegators are listed exactly with their delegates, each once.
    pub open spec fn delegations_consistent(self) -> bool {
        &&& forall|delegate: Address| #[trigger] self.delegators_for(delegate).no_duplicates()
        &&& forall|delegate: Address, delegator: Address| #[trigger]
            self.delegators_for(delegate).contains(delegator) <==> (self.delegation(
                delegator,
            ) matches Some(d) && d.delegate == delegate)
    }
}

/// Taking an item out of a list leaves no item twice that was not there twice.
proof fn lemma_without_distinct<T>(list: Seq<T>, item: T)
    requires
        list.no_duplicates(),
    ensures
        crate::primitives::without(list, item).no_duplicates(),
    decreases list.len(),
{
    if list.len() > 0 {
        let init = list.drop_last();
        lemma_without_distinct(init, item);
        crate::primitives::lemma_without_contains(init, item, list.last());
        assert(!init.contains(list.last())) by {
            if init.contains(list.last()) {
                let i = choose|i: int| 0 <= i < init.len() && init[i] == list.last();
                assert(list[i] == list[list.len() - 1]);
            }
        }
    }
}

/// A new delegation keeps delegators listed exactly with their delegates.
pub proof fn law_delegating_keeps_the_index(env: EnvModel, delegation: Delegation)
    requires
        env.delegations_consistent(),
    ensures
        env.with_delegation(delegation).delegations_consistent(),
{
    let delegator = delegation.delegator;
    let unlisted = env.delegator_unlisted(delegator);
    lemma_unlisted(env, delegator);
    let after = env.with_delegation(delegation);
    assert(!unlisted.delegators_for(delegation.delegate).contains(delegator));
    assert(after.members.delegators =~= unlisted.members.delegators.insert(
        delegation.delegate,
        unlisted.delegators_for(delegation.delegate).push(delegator),
    ));
    assert forall|to: Address| #[trigger] after.delegators_for(to).no_duplicates() by {
        assert(unlisted.delegators_for(to).no_duplicates());
    }
    assert forall|to: Address, from: Address| #[trigger]
        after.delegators_for(to).contains(from) <==> (after.delegation(from) matches Some(d)
            && d.delegate == to) by {
        crate::primitives::lemma_push_contains(unlisted.delegators_for(to), delegator, from);
        assert(unlisted.delegators_for(to).contains(from) <==> from != delegator
            && env.delegators_for(to).contains(from));
    }
}

/// What unlisting a delegator leaves listed.
proof fn lemma_unlisted(env: EnvModel, delegator: Address)
    requires
        env.delegations_consistent(),
    ensures
        forall|to: Address| #[trigger]
            env.delegator_unlisted(delegator).delegators_for(to).no_duplicates(),
        forall|to: Address, from: Address| #[trigger]
            env.delegator_unlisted(delegator).delegators_for(to).contains(from) <==> from
                != delegator && env.delegators_for(to).contains(from),
{
    let unlisted = env.delegator_unlisted(delegator);
    assert forall|to: Address| #[trigger] unlisted.delegators_for(to).no_duplicates() by {
        assert(env.delegators_for(to).no_duplicates());
        lemma_without_distinct(env.delegators_for(to), delegator);
    }
    assert forall|to: Address, from: Address| #[trigger]
        unlisted.delegators_for(to).contains(from) <==> from != delegator && env.delegators_for(
            to,
        ).contains(from) by {
        crate::primitives::lemma_without_contains(env.delegators_for(to), delegator, from);
        assert(env.delegators_for(to).contains(delegator) <==> (env.delegation(
            delegator,
        ) matches Some(d) && d.delegate == to));
    }
}

/// Forgetting a delegation keeps delegators listed exactly with their delegates.
pub proof fn law_revoking_keeps_the_index(env: EnvModel, delegator: Address)
    requires
        env.delegations_consistent(),
    ensures
        env.without_delegation(delegator).delegations_consistent(),
{
    let unlisted = env.delegator_unlisted(delegator);
    lemma_unlisted(env, delegator);
    let after = env.without_delegation(delegator);
    assert forall|to: Address| #[trigger] after.delegators_for(to).no_duplicates() by {
        assert(unlisted.delegators_for(to).no_duplicates());
    }
    assert forall|to: Address, from: Address| #[trigger]
        after.delegators_for(to).contains(from) <==> (after.delegation(from) matches Some(d)
            && d.delegate == to) by {
        assert(unlisted.delegators_for(to).contains(from) <==> from != delegator
            && env.delegators_for(to).contains(from));
    }
}

/// A chain of delegations does not change by another's delegation that it does not pass.
proof fn lemma_chain_unchanged(before: EnvModel, after: EnvModel, by: Address, addr: Address, limit: nat)
    requires
        addr != by,
        forall|a: Address| a != by ==> #[trigger] after.delegate_of(a) == before.delegate_of(a),
        !before.delegation_chain(addr, limit).contains(by),
    ensures
        after.delegation_chain(addr, limit) == before.delegation_chain(addr, limit),
    decreases limit,
{
    if limit > 0 {
        match before.delegate_of(addr) {
            Some(next) => {
                let rest = before.delegation_chain(next, (limit - 1) as nat);
                let chain = before.delegation_chain(addr, limit);
                assert(chain[0] == next);
                assert(!rest.contains(by)) by {
                    if rest.contains(by) {
                        let i = choose|i: int| 0 <= i < rest.len() && rest[i] == by;
                        assert(chain[i + 1] == by);
                    }
                }
                lemma_chain_unchanged(before, after, by, next, (limit - 1) as nat);
                assert(after.delegate_of(addr) == before.delegate_of(addr));
            },
            None => {
                assert(after.delegate_of(addr) == before.delegate_of(addr));
            },
        }
    }
}

/// A chain that ends before a limit is the same under any higher limit.
proof fn lemma_chain_complete(env: EnvModel, addr: Address, limit: nat, higher: nat)
    requires
        env.delegation_chain(addr, limit).len() < limit <= higher,
    ensures
        env.delegation_chain(addr, higher) == env.delegation_chain(addr, limit),
    decreases limit,
{
    match env.delegate_of(addr) {
        Some(next) => {
            lemma_chain_complete(env, next, (limit - 1) as nat, (higher - 1) as nat);
        },
        None => {},
    }
}

/// An accepted delegation closes no circle: however far delegations are followed from the
/// delegator, they do not lead back to it.
pub proof fn law_delegation_is_not_circular(
    env: EnvModel,
    delegator: Address,
    delegate: Address,
    expiry_ledger: u64,
    limit: nat,
)
    requires
        env.delegation_refusal(delegator, delegate) is None,
    ensures
        !env.delegate(delegator, delegate, expiry_ledger).0.delegation_chain(
            delegator,
            limit,
        ).contains(delegator),
{
    let after = env.delegate(delegator, delegate, expiry_ledger).0;
    let depth = MAX_DELEGATION_DEPTH as nat;
    if limit > 0 {
        let rest = (limit - 1) as nat;
        if rest >= depth {
            lemma_chain_complete(env, delegate, depth, rest);
        } else {
            lemma_chain_shorter(env, delegate, rest, depth, delegator);
        }
        assert forall|a: Address| a != delegator implies #[trigger] after.delegate_of(a)
            == env.delegate_of(a) by {}
        lemma_chain_unchanged(env, after, delegator, delegate, rest);
        match after.delegate_of(delegator) {
            Some(next) => {
                assert(next == delegate);
                let tail = after.delegation_chain(delegate, rest);
                let chain = after.delegation_chain(delegator, limit);
                assert(chain == seq![delegate] + tail);
                if chain.contains(delegator) {
                    let i = choose|i: int| 0 <= i < chain.len() && chain[i] == delegator;
                    assert(i > 0);
                    assert(tail[i - 1] == delegator);
                }
            },
            None => {},
        }
    }
}

/// What a chain does not hold, its beginning does not hold either.
proof fn lemma_chain_shorter(env: EnvModel, addr: Address, limit: nat, higher: nat, x: Address)
    requires
        limit <= higher,
        !env.delegation_chain(addr, higher).contains(x),
    ensures
        !env.delegation_chain(addr, limit).contains(x),
    decreases limit,
{
    if limit > 0 {
        match env.delegate_of(addr) {
            Some(next) => {
                let long = env.delegation_chain(next, (higher - 1) as nat);
                let full = env.delegation_chain(addr, higher);
                assert(full[0] == next);
                assert(!long.contains(x)) by {
                    if long.contains(x) {
                        let i = choose|i: int| 0 <= i < long.len() && long[i] == x;
                        assert(full[i + 1] == x);
                    }
                }
                lemma_chain_shorter(env, next, (limit - 1) as nat, (higher - 1) as nat, x);
                let short = env.delegation_chain(next, (limit - 1) as nat);
                let chain = env.delegation_chain(addr, limit);
                if chain.contains(x) {
                    let i = choose|i: int| 0 <= i < chain.len() && chain[i] == x;
                    if i > 0 {
                        assert(short[i - 1] == x);
                    }
                }
            },
            None => {},
        }
    }
}

/// Represented voters are added to those given, and none of them occurs twice.
proof fn lemma_represented(env: EnvModel, signer: Address, voters: Seq<Address>, depth: nat)
    requires
        voters.no_duplicates(),
    ensures
        env.represented(signer, voters, depth).no_duplicates(),
        voters.len() <= env.represented(signer, voters, depth).len(),
        voters == env.represented(signer, voters, depth).take(voters.len() as int),
    decreases MAX_REPRESENTATION_DEPTH + 1 - depth, 1nat, 0nat,
{
    assert(voters.take(voters.len() as int) =~= voters);
    if depth < MAX_REPRESENTATION_DEPTH {
        lemma_represented_by_each(env, env.delegators_for(signer), voters, depth);
    }
}

/// Voters represented by several are added to those given, and none of them occurs twice.
proof fn lemma_represented_by_each(
    env: EnvModel,
    delegators: Seq<Address>,
    voters: Seq<Address>,
    depth: nat,
)
    requires
        voters.no_duplicates(),
    ensures
        env.represented_by_each(delegators, voters, depth).no_duplicates(),
        voters.len() <= env.represented_by_each(delegators, voters, depth).len(),
        voters == env.represented_by_each(delegators, voters, depth).take(voters.len() as int),
    decreases MAX_REPRESENTATION_DEPTH + 1 - depth, 0nat, delegators.len(),
{
    assert(voters.take(voters.len() as int) =~= voters);
    if delegators.len() > 0 && depth < MAX_REPRESENTATION_DEPTH {
        let delegator = delegators[0];
        let end = env.represented_by_each(delegators, voters, depth);
        if !voters.contains(delegator) && env.delegate_of(delegator) is Some {
            let marked = voters.push(delegator);
            assert(marked.no_duplicates());
            lemma_represented(env, delegator, marked, depth + 1);
            let more = env.represented(delegator, marked, depth + 1);
            lemma_represented_by_each(env, delegators.skip(1), more, depth);
            assert forall|i: int| 0 <= i < voters.len() implies voters[i] == end[i] by {
                assert(marked[i] == more.take(marked.len() as int)[i]);
                assert(more[i] == end.take(more.len() as int)[i]);
            }
            assert(voters =~= end.take(voters.len() as int));
        } else {
            lemma_represented_by_each(env, delegators.skip(1), voters, depth);
        }
    }
}

/// Whom a signer represents depends on the ledger and on delegations alone.
pub(crate) proof fn lemma_electorate_frame(a: EnvModel, b: EnvModel, signer: Address)
    requires
        a.ledger == b.ledger,
        a.members.delegations == b.members.delegations,
        a.members.delegators == b.members.delegators,
    ensures
        a.electorate(signer) == b.electorate(signer),
{
    lemma_represented_frame(a, b, signer, seq![signer], 0);
}

/// In whose name a signer approves depends on the ledger and on delegations alone.
pub(crate) proof fn lemma_approval_electorate_frame(a: EnvModel, b: EnvModel, signer: Address)
    requires
        a.ledger == b.ledger,
        a.members.delegations == b.members.delegations,
        a.members.delegators == b.members.delegators,
    ensures
        a.effective_voter(signer) == b.effective_voter(signer),
        a.approval_electorate(signer) == b.approval_electorate(signer),
{
    lemma_chain_frame(a, b, signer, a.longest_chain());
    lemma_electorate_frame(a, b, signer);
    lemma_electorate_frame(a, b, a.effective_voter(signer));
}

/// Delegation chains depend on the ledger and on delegations alone.
proof fn lemma_chain_frame(a: EnvModel, b: EnvModel, addr: Address, limit: nat)
    requires
        a.ledger == b.ledger,
        a.members.delegations == b.members.delegations,
    ensures
        a.delegation_chain(addr, limit) == b.delegation_chain(addr, limit),
    decreases limit,
{
    assert(a.delegate_of(addr) == b.delegate_of(addr));
    if limit > 0 && a.delegate_of(addr) is Some {
        lemma_chain_frame(a, b, a.delegate_of(addr)->0, (limit - 1) as nat);
    }
}

/// A chain that ends before its limit is the same under any higher limit.
proof fn lemma_chain_ends(env: EnvModel, addr: Address, limit: nat, higher: nat)
    requires
        env.delegation_chain(addr, limit).len() < limit <= higher,
    ensures
        env.delegation_chain(addr, higher) == env.delegation_chain(addr, limit),
    decreases limit,
{
    if env.delegate_of(addr) is Some {
        let next = env.delegate_of(addr)->0;
        lemma_chain_ends(env, next, (limit - 1) as nat, (higher - 1) as nat);
    }
}

/// A chain that ends before its limit ends with one who does not delegate.
proof fn lemma_chain_end(env: EnvModel, addr: Address, limit: nat)
    requires
        env.delegation_chain(addr, limit).len() < limit,
    ensures
        ({
            let chain = env.delegation_chain(addr, limit);
            env.delegate_of(if chain.len() == 0 {
                addr
            } else {
                chain.last()
            }) is None
        }),
    decreases limit,
{
    if env.delegate_of(addr) is Some {
        let next = env.delegate_of(addr)->0;
        lemma_chain_end(env, next, (limit - 1) as nat);
        let rest = env.delegation_chain(next, (limit - 1) as nat);
        assert(env.delegation_chain(addr, limit) == seq![next] + rest);
        if rest.len() == 0 {
            assert((seq![next] + rest).last() == next);
        } else {
            assert((seq![next] + rest).last() == rest.last());
        }
    }
}

/// The effective voter of a signer is the end of its delegation chain, and does not delegate. A
/// signer who does not delegate is its own effective voter.
pub proof fn law_effective_voters_end_the_chain(env: EnvModel, signer: Address)
    requires
        env.delegation_chain(signer, MAX_DELEGATION_DEPTH as nat + 1).len()
            <= MAX_DELEGATION_DEPTH,
    ensures
        ({
            let chain = env.delegation_chain(signer, MAX_DELEGATION_DEPTH as nat + 1);
            &&& env.effective_voter(signer) == if chain.len() == 0 {
                signer
            } else {
                chain.last()
            }
            &&& env.delegate_of(env.effective_voter(signer)) is None
        }),
{
    let limit = MAX_DELEGATION_DEPTH as nat + 1;
    lemma_chain_ends(env, signer, limit, env.longest_chain());
    lemma_chain_end(env, signer, limit);
}

/// The effective voter of a signer is first among those in whose name it approves, nobody is
/// among them twice, and a signer who delegates is not among them.
pub proof fn law_approvals_go_to_the_effective_voter(env: EnvModel, signer: Address)
    ensures
        ({
            let voters = env.approval_electorate(signer);
            &&& voters.no_duplicates()
            &&& voters.len() >= 1
            &&& voters[0] == env.effective_voter(signer)
            &&& env.effective_voter(signer) != signer ==> !voters.contains(signer)
        }),
{
    let voter = env.effective_voter(signer);
    law_electorate_is_distinct(env, voter);
    if voter != signer {
        let all = env.electorate(voter);
        lemma_without_distinct(all, signer);
        lemma_without_first(all, signer);
        crate::primitives::lemma_without_contains(all, signer, signer);
    }
}

/// A first item that is kept stays first.
proof fn lemma_without_first<T>(list: Seq<T>, item: T)
    requires
        list.len() > 0,
        list[0] != item,
    ensures
        crate::primitives::without(list, item).len() > 0,
        crate::primitives::without(list, item)[0] == list[0],
    decreases list.len(),
{
    let rest = list.drop_last();
    if list.len() > 1 {
        lemma_without_first(rest, item);
        assert(rest[0] == list[0]);
    } else {
        assert(crate::primitives::without(rest, item) =~= Seq::empty());
        assert(list.last() == list[0]);
    }
}

/// Whom a signer represents depends on the ledger and on delegations alone.
proof fn lemma_represented_frame(
    a: EnvModel,
    b: EnvModel,
    signer: Address,
    voters: Seq<Address>,
    depth: nat,
)
    requires
        a.ledger == b.ledger,
        a.members.delegations == b.members.delegations,
        a.members.delegators == b.members.delegators,
    ensures
        a.represented(signer, voters, depth) == b.represented(signer, voters, depth),
    decreases MAX_REPRESENTATION_DEPTH + 1 - depth, 1nat, 0nat,
{
    if depth < MAX_REPRESENTATION_DEPTH {
        lemma_represented_by_each_frame(a, b, a.delegators_for(signer), voters, depth);
    }
}

/// Whom several represent depends on the ledger and on delegations alone.
proof fn lemma_represented_by_each_frame(
    a: EnvModel,
    b: EnvModel,
    delegators: Seq<Address>,
    voters: Seq<Address>,
    depth: nat,
)
    requires
        a.ledger == b.ledger,
        a.members.delegations == b.members.delegations,
        a.members.delegators == b.members.delegators,
    ensures
        a.represented_by_each(delegators, voters, depth) == b.represented_by_each(
            delegators,
            voters,
            depth,
        ),
    decreases MAX_REPRESENTATION_DEPTH + 1 - depth, 0nat, delegators.len(),
{
    if delegators.len() > 0 && depth < MAX_REPRESENTATION_DEPTH {
        let delegator = delegators[0];
        assert(a.delegate_of(delegator) == b.delegate_of(delegator));
        let more = if !voters.contains(delegator) && a.delegate_of(delegator) is Some {
            lemma_represented_frame(a, b, delegator, voters.push(delegator), depth + 1);
            a.represented(delegator, voters.push(delegator), depth + 1)
        } else {
            voters
        };
        lemma_represented_by_each_frame(a, b, delegators.skip(1), more, depth);
    }
}

/// A signer votes in its own name first, and in no name twice.
pub proof fn law_electorate_is_distinct(env: EnvModel, signer: Address)
    ensures
        env.electorate(signer).no_duplicates(),
        env.electorate(signer).len() >= 1,
        env.electorate(signer)[0] == signer,
{
    let own = seq![signer];
    lemma_represented(env, signer, own, 0);
    assert(own[0] == env.electorate(signer).take(1)[0]);
}

impl VaultDAO {
    /// Hands the vote of a signer to another signer, until a given ledger or, with zero,
    /// without end.
    pub fn delegate_voting_power(
        env: &mut Env,
        delegator: Address,
        delegate: Address,
        expiry_ledger: u64,
    ) -> (r: Result<(), VaultError>)
        requires
            old(env)@.authorized(delegator),
            old(env)@.has_room(),
        ensures
            (final(env)@, r) == old(env)@.delegate(delegator, delegate, expiry_ledger),
    {
        if delegator == delegate {
            return Err(VaultError::InvalidAmount);
        }
        let config = storage::get_config(env)?;
        if !list_contains(&config.signers, &delegator) || !list_contains(
            &config.signers,
            &delegate,
        ) {
            return Err(VaultError::NotASigner);
        }
        if let Some(existing) = storage::get_delegation(env, &delegate) {
            if existing.delegate == delegator {
                return Err(VaultError::Unauthorized);
            }
        }
        let chain = follow_delegations(env, &delegate, MAX_DELEGATION_DEPTH);
        if chain.len() >= MAX_DELEGATION_DEPTH || list_contains(&chain, &delegator) {
            return Err(VaultError::Unauthorized);
        }
        let previous = match storage::get_delegation(env, &delegator) {
            Some(existing) => existing.delegate,
            None => delegator,
        };
        let delegation = Delegation {
            delegator,
            delegate,
            created_at: env.now(),
            expiry_ledger,
            is_active: true,
        };
        storage::set_delegation(env, &delegation);
        record_delegation(env, delegator, previous, delegate);
        Ok(())
    }

    /// The one under whom the approval of a signer is recorded.
    pub fn get_effective_voter(env: &Env, signer: &Address) -> (r: Address)
        ensures
            r == env@.effective_voter(*signer),
    {
        let count: usize = env.members.delegations.len();
        let limit: usize = if count > MAX_DELEGATION_DEPTH + 1 {
            count
        } else {
            MAX_DELEGATION_DEPTH + 1
        };
        let chain = follow_delegations(env, signer, limit);
        if chain.len() == 0 {
            *signer
        } else {
            chain[chain.len() - 1]
        }
    }

    /// Adds to `voters` those whom a signer represents.
    pub fn get_all_represented_voters(
        env: &Env,
        signer: &Address,
        voters: &mut Vec<Address>,
        depth: u32,
    )
        ensures
            final(voters)@ == env@.represented(*signer, old(voters)@, depth as nat),
        decreases MAX_REPRESENTATION_DEPTH + 1 - depth,
    {
        if depth >= MAX_REPRESENTATION_DEPTH {
            return;
        }
        let delegators = storage::get_delegators_for(env, signer);
        assert(delegators@.skip(0) =~= delegators@);
        let mut i: usize = 0;
        while i < delegators.len()
            invariant
                i <= delegators.len(),
                depth < MAX_REPRESENTATION_DEPTH,
                env@.represented(*signer, old(voters)@, depth as nat) == env@.represented_by_each(
                    delegators@.skip(i as int),
                    voters@,
                    depth as nat,
                ),
            decreases delegators.len() - i,
        {
            proof {
                assert(delegators@.skip(i as int)[0] == delegators@[i as int]);
                assert(delegators@.skip(i as int).skip(1) =~= delegators@.skip(i + 1));
            }
            let delegator = delegators[i];
            if !list_contains(voters, &delegator) {
                if current_delegate(env, &delegator).is_some() {
                    voters.push(delegator);
                    Self::get_all_represented_voters(env, &delegator, voters, depth + 1);
                }
            }
            i += 1;
        }
    }

    /// Takes the vote of a signer back.
    pub fn revoke_delegation(env: &mut Env, delegator: Address) -> (r: Result<(), VaultError>)
        requires
            old(env)@.authorized(delegator),
            old(env)@.has_room(),
        ensures
            (final(env)@, r) == old(env)@.revoke(delegator),
    {
        match storage::get_delegation(env, &delegator) {
            Some(existing) => {
                storage::remove_delegation(env, &delegator);
                record_delegation(env, delegator, existing.delegate, delegator);
                Ok(())
            },
            None => Err(VaultError::ProposalNotFound),
        }
    }

    /// The delegates that are reached from an address by following delegations, unless there
    /// are more than ten.
    pub fn get_delegation_chain(env: &Env, addr: Address) -> (r: Result<Vec<Address>, VaultError>)
        ensures
            ({
                let chain = env@.delegation_chain(addr, MAX_DELEGATION_DEPTH as nat + 1);
                crate::errors::res_view(r) == if chain.len() > MAX_DELEGATION_DEPTH {
                    Err::<Seq<Address>, VaultError>(VaultError::Unauthorized)
                } else {
                    Ok::<Seq<Address>, VaultError>(chain)
                }
            }),
    {
        let chain = follow_delegations(env, &addr, MAX_DELEGATION_DEPTH + 1);
        if chain.len() > MAX_DELEGATION_DEPTH {
            return Err(VaultError::Unauthorized);
        }
        Ok(chain)
    }
}

/// The one to whom an address delegates at present, if any.
fn current_delegate(env: &Env, addr: &Address) -> (r: Option<Address>)
    ensures
        r == env@.delegate_of(*addr),
{
    match storage::get_delegation(env, addr) {
        Some(delegation) => if delegation.is_active && (delegation.expiry_ledger == 0 || env.now()
            <= delegation.expiry_ledger) {
            Some(delegation.delegate)
        } else {
            None
        },
        None => None,
    }
}

/// The first delegates, up to `limit`, that are reached from an address by following
/// delegations.
fn follow_delegations(env: &Env, addr: &Address, limit: usize) -> (r: Vec<Address>)
    ensures
        r@ == env@.delegation_chain(*addr, limit as nat),
{
    let mut chain: Vec<Address> = Vec::new();
    let mut current: Address = *addr;
    let mut left: usize = limit;
    assert(chain@ + env@.delegation_chain(current, left as nat) =~= env@.delegation_chain(
        *addr,
        limit as nat,
    ));
    while left > 0
        invariant
            chain@ + env@.delegation_chain(current, left as nat) == env@.delegation_chain(
                *addr,
                limit as nat,
            ),
        decreases left,
    {
        match current_delegate(env, &current) {
            Some(delegate) => {
                proof {
                    let tail = env@.delegation_chain(delegate, (left - 1) as nat);
                    assert(chain@ + (seq![delegate] + tail) =~= chain@.push(delegate) + tail);
                }
                chain.push(delegate);
                current = delegate;
                left -= 1;
            },
            None => {
                assert(chain@ + Seq::<Address>::empty() =~= chain@);
                return chain;
            },
        }
    }
    assert(chain@ + Seq::<Address>::empty() =~= chain@);
    chain
}

/// Records a change of delegation.
fn record_delegation(
    env: &mut Env,
    delegator: Address,
    previous_delegate: Address,
    new_delegate: Address,
)
    requires
        old(env)@.members.next_delegation_id < u64::MAX,
    ensures
        final(env)@ == old(env)@.record_delegation(delegator, previous_delegate, new_delegate),
{
    let history = DelegationHistory {
        id: storage::increment_delegation_id(env),
        delegator,
        previous_delegate,
        new_delegate,
        changed_at: env.now(),
    };
    storage::add_delegation_history(env, &history);
}

} // verus!
