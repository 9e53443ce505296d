//! Dependencies between proposals.
//!
//! A proposal is executed after the proposals that it depends on. A bounded depth-first walk
//! keeps cycles out.

use vstd::prelude::*;

use crate::env::Env;
use crate::errors::VaultError;
use crate::primitives::list_contains;
use crate::storage;
use crate::types::{Proposal, ProposalModel, ProposalStatus};
use crate::VaultDAO;

verus! {

/// How many proposals a walk along dependencies visits before it gives up.
pub const MAX_DEP_DEPTH: usize = 16;

/// A depth-first walk from a proposal in search of another: the proposals visited, and
/// whether the other was found.
pub open spec fn explore(records: Map<u64, ProposalModel>, from: u64, target: u64, visited: Seq<u64>) -> (
    Seq<u64>,
    Result<bool, VaultError>,
)
    decreases MAX_DEP_DEPTH + 1 - visited.len(), 0nat,
{
    if from == target {
        (visited, Ok(true))
    } else if visited.len() >= MAX_DEP_DEPTH {
        (visited, Err(VaultError::DependencyDepthExceeded))
    } else if visited.contains(from) {
        (visited, Ok(false))
    } else {
        match crate::table::find(records, from) {
            Some(proposal) => explore_each(records, 
                proposal.depends_on,
                target,
                visited.push(from),
            ),
            None => (visited.push(from), Err(VaultError::ProposalNotFound)),
        }
    }
}

/// Depth-first walks from several proposals, one after the other, until one finds the
/// other or fails.
pub open spec fn explore_each(records: Map<u64, ProposalModel>, nodes: Seq<u64>, target: u64, visited: Seq<u64>) -> (
    Seq<u64>,
    Result<bool, VaultError>,
)
    decreases MAX_DEP_DEPTH + 1 - visited.len(), nodes.len() + 1,
{
    if nodes.len() == 0 {
        (visited, Ok(false))
    } else {
        let (after, found) = explore(records, nodes[0], target, visited);
        if found != Ok::<bool, VaultError>(false) || !(visited.len() <= after.len()
            <= MAX_DEP_DEPTH) {
            (after, found)
        } else {
            explore_each(records, nodes.skip(1), target, after)
        }
    }
}

/// Why a dependency of a proposal is refused, if it is, after others were accepted.
pub open spec fn dependency_refusal(
    records: Map<u64, ProposalModel>,
    proposal_id: u64,
    accepted: Seq<u64>,
    dependency: u64,
) -> Option<VaultError> {
    if dependency == proposal_id || accepted.contains(dependency) {
        Some(VaultError::CircularDependency)
    } else if !records.contains_key(dependency) {
        Some(VaultError::ProposalNotFound)
    } else {
        cycle_refusal(records, proposal_id, dependency)
    }
}

/// Why a dependency is refused on account of what it depends on itself, if it is.
pub open spec fn cycle_refusal(records: Map<u64, ProposalModel>, proposal_id: u64, dependency: u64) -> Option<
    VaultError,
> {
    match explore(records, dependency, proposal_id, Seq::empty()).1 {
        Ok(true) => Some(VaultError::CircularDependency),
        Ok(false) => None,
        Err(error) => Some(error),
    }
}

/// Why a list of dependencies is refused, if it is: the first refusal of one of them.
pub open spec fn dependencies_refusal(records: Map<u64, ProposalModel>, proposal_id: u64, depends_on: Seq<u64>) -> Option<
    VaultError,
>
    decreases depends_on.len(),
{
    if depends_on.len() == 0 {
        None
    } else {
        let accepted = depends_on.drop_last();
        match dependencies_refusal(records, proposal_id, accepted) {
            Some(error) => Some(error),
            None => dependency_refusal(records, proposal_id, accepted, depends_on.last()),
        }
    }
}

/// Why a proposal must wait for one of its dependencies, if it must.
pub open spec fn wait_reason(records: Map<u64, ProposalModel>, proposal_id: u64, dependency: u64) -> Option<VaultError> {
    if dependency == proposal_id {
        Some(VaultError::CircularDependency)
    } else {
        match cycle_refusal(records, proposal_id, dependency) {
            Some(error) => Some(error),
            None => match crate::table::find(records, dependency) {
                Some(found) => if found.status == ProposalStatus::Executed {
                    None
                } else {
                    Some(VaultError::ProposalNotApproved)
                },
                None => Some(VaultError::ProposalNotFound),
            },
        }
    }
}

/// Why a proposal must wait for the proposals it depends on, if it must.
pub open spec fn waits(records: Map<u64, ProposalModel>, proposal_id: u64, depends_on: Seq<u64>) -> Option<VaultError>
    decreases depends_on.len(),
{
    if depends_on.len() == 0 {
        None
    } else {
        match waits(records, proposal_id, depends_on.drop_last()) {
            Some(error) => Some(error),
            None => wait_reason(records, proposal_id, depends_on.last()),
        }
    }
}

/// A proposal and one that it depends on.
pub open spec fn depends(records: Map<u64, ProposalModel>, from: u64, on: u64) -> bool {
    match crate::table::find(records, from) {
        Some(proposal) => proposal.depends_on.contains(on),
        None => false,
    }
}

/// A chain of proposals, each of which depends on the next.
pub open spec fn dependency_path(records: Map<u64, ProposalModel>, path: Seq<u64>) -> bool {
    &&& path.len() > 0
    &&& forall|i: int| 0 <= i < path.len() - 1 ==> depends(records, path[i], #[trigger] path[i + 1])
}

/// A walk only adds to the proposals visited, and visits a bounded number of them.
proof fn lemma_explore_grows(records: Map<u64, ProposalModel>, from: u64, target: u64, visited: Seq<u64>)
    requires
        visited.len() <= MAX_DEP_DEPTH,
    ensures
        visited.len() <= explore(records, from, target, visited).0.len() <= MAX_DEP_DEPTH,
        visited == explore(records, from, target, visited).0.take(visited.len() as int),
    decreases MAX_DEP_DEPTH + 1 - visited.len(), 0nat,
{
    assert(visited.take(visited.len() as int) =~= visited);
    if from != target && visited.len() < MAX_DEP_DEPTH && !visited.contains(from) {
        let marked = visited.push(from);
        match crate::table::find(records, from) {
            Some(proposal) => {
                lemma_explore_each_grows(records, proposal.depends_on, target, marked);
                let after = explore(records, from, target, visited).0;
                assert(visited =~= after.take(visited.len() as int)) by {
                    assert(marked == after.take(marked.len() as int));
                    assert forall|i: int| 0 <= i < visited.len() implies visited[i]
                        == after[i] by {
                        assert(marked[i] == after.take(marked.len() as int)[i]);
                    }
                }
            },
            None => {
                assert(visited =~= marked.take(visited.len() as int));
            },
        }
    }
}

/// Walks one after the other only add to the proposals visited.
proof fn lemma_explore_each_grows(records: Map<u64, ProposalModel>, nodes: Seq<u64>, target: u64, visited: Seq<u64>)
    requires
        visited.len() <= MAX_DEP_DEPTH,
    ensures
        visited.len() <= explore_each(records, nodes, target, visited).0.len() <= MAX_DEP_DEPTH,
        visited == explore_each(records, nodes, target, visited).0.take(visited.len() as int),
    decreases MAX_DEP_DEPTH + 1 - visited.len(), nodes.len() + 1,
{
    assert(visited.take(visited.len() as int) =~= visited);
    if nodes.len() > 0 {
        lemma_explore_grows(records, nodes[0], target, visited);
        let (after, found) = explore(records, nodes[0], target, visited);
        if found == Ok::<bool, VaultError>(false) {
            lemma_explore_each_grows(records, nodes.skip(1), target, after);
            let end = explore_each(records, nodes, target, visited).0;
            assert forall|i: int| 0 <= i < visited.len() implies visited[i] == end[i] by {
                assert(visited[i] == after.take(visited.len() as int)[i]);
                assert(after[i] == end.take(after.len() as int)[i]);
            }
            assert(visited =~= end.take(visited.len() as int));
        }
    }
}

/// Every proposal visited since `old_visited` has all that it depends on visited too.
spec fn closed_since(records: Map<u64, ProposalModel>, old_visited: Seq<u64>, visited: Seq<u64>) -> bool {
    forall|x: u64, y: u64|
        visited.contains(x) && !old_visited.contains(x) && #[trigger] depends(records, x, y)
            ==> visited.contains(y)
}

/// A walk that does not find its target visits all that can be reached, and not the target.
proof fn lemma_explore_closed(records: Map<u64, ProposalModel>, from: u64, target: u64, visited: Seq<u64>)
    requires
        visited.len() <= MAX_DEP_DEPTH,
        !visited.contains(target),
        explore(records, from, target, visited).1 == Ok::<bool, VaultError>(false),
    ensures
        explore(records, from, target, visited).0.contains(from),
        !explore(records, from, target, visited).0.contains(target),
        closed_since(records, visited, explore(records, from, target, visited).0),
    decreases MAX_DEP_DEPTH + 1 - visited.len(), 0nat,
{
    if !visited.contains(from) {
        let marked = visited.push(from);
        let deps = records[from].depends_on;
        assert forall|x: u64| #[trigger] marked.contains(x) <==> visited.contains(x) || x
            == from by {
            crate::primitives::lemma_push_contains(visited, from, x);
        }
        lemma_explore_each_closed(records, deps, target, marked);
        lemma_explore_each_grows(records, deps, target, marked);
        let after = explore(records, from, target, visited).0;
        assert(after.contains(from)) by {
            let n = visited.len() as int;
            assert(marked[n] == after.take(marked.len() as int)[n]);
        }
        assert forall|x: u64, y: u64|
            after.contains(x) && !visited.contains(x) && #[trigger] depends(
                records,
                x,
                y,
            ) implies after.contains(y) by {
            if x == from {
                let i = choose|i: int| 0 <= i < deps.len() && deps[i] == y;
                assert(after.contains(deps[i]));
            } else {
                assert(!marked.contains(x));
            }
        }
    }
}

/// Walks that do not find their target visit all that can be reached, and not the target.
proof fn lemma_explore_each_closed(
    records: Map<u64, ProposalModel>,
    nodes: Seq<u64>,
    target: u64,
    visited: Seq<u64>,
)
    requires
        visited.len() <= MAX_DEP_DEPTH,
        !visited.contains(target),
        explore_each(records, nodes, target, visited).1 == Ok::<bool, VaultError>(false),
    ensures
        forall|i: int|
            0 <= i < nodes.len() ==> explore_each(records, nodes, target, visited).0.contains(
                #[trigger] nodes[i],
            ),
        !explore_each(records, nodes, target, visited).0.contains(target),
        closed_since(records, visited, explore_each(records, nodes, target, visited).0),
    decreases MAX_DEP_DEPTH + 1 - visited.len(), nodes.len() + 1,
{
    if nodes.len() > 0 {
        lemma_explore_grows(records, nodes[0], target, visited);
        lemma_explore_closed(records, nodes[0], target, visited);
        let after = explore(records, nodes[0], target, visited).0;
        let rest = nodes.skip(1);
        lemma_explore_each_closed(records, rest, target, after);
        lemma_explore_each_grows(records, rest, target, after);
        let end = explore_each(records, nodes, target, visited).0;
        assert forall|x: u64| after.contains(x) implies end.contains(x) by {
            let i = choose|i: int| 0 <= i < after.len() && after[i] == x;
            assert(after[i] == end.take(after.len() as int)[i]);
            assert(end[i] == x);
        }
        assert forall|i: int| 0 <= i < nodes.len() implies end.contains(#[trigger] nodes[i]) by {
            if i > 0 {
                assert(rest[i - 1] == nodes[i]);
            }
        }
        assert forall|x: u64, y: u64|
            end.contains(x) && !visited.contains(x) && #[trigger] depends(
                records,
                x,
                y,
            ) implies end.contains(y) by {
            if after.contains(x) {
                assert(after.contains(y));
            }
        }
    }
}

/// What a chain of dependencies visits of a set that is closed under dependencies.
proof fn lemma_path_stays(records: Map<u64, ProposalModel>, path: Seq<u64>, visited: Seq<u64>, i: int)
    requires
        dependency_path(records, path),
        visited.contains(path[0]),
        closed_since(records, Seq::empty(), visited),
        0 <= i < path.len(),
    ensures
        visited.contains(path[i]),
    decreases i,
{
    if i > 0 {
        lemma_path_stays(records, path, visited, i - 1);
        assert(depends(records, path[i - 1], path[i - 1 + 1]));
    }
}

/// A list of dependencies that is accepted leads, along any chain of dependencies, never back
/// to the proposal it was accepted for.
pub proof fn law_accepted_dependencies_form_no_cycle(
    records: Map<u64, ProposalModel>,
    proposal_id: u64,
    depends_on: Seq<u64>,
    path: Seq<u64>,
)
    requires
        dependencies_refusal(records, proposal_id, depends_on) is None,
        dependency_path(records, path),
        depends_on.contains(path[0]),
    ensures
        path.last() != proposal_id,
    decreases depends_on.len(),
{
    let dependency = depends_on.last();
    if path[0] == dependency {
        let visited = explore(records, dependency, proposal_id, Seq::empty()).0;
        lemma_explore_closed(records, dependency, proposal_id, Seq::empty());
        lemma_path_stays(records, path, visited, path.len() - 1);
    } else {
        let shorter = depends_on.drop_last();
        let i = choose|i: int| 0 <= i < depends_on.len() && depends_on[i] == path[0];
        assert(shorter[i] == path[0]);
        law_accepted_dependencies_form_no_cycle(records, proposal_id, shorter, path);
    }
}

/// A list of dependencies that is accepted names existing proposals, none of them twice and
/// none of them the proposal it was accepted for.
pub proof fn law_accepted_dependencies_exist(
    records: Map<u64, ProposalModel>,
    proposal_id: u64,
    depends_on: Seq<u64>,
)
    requires
        dependencies_refusal(records, proposal_id, depends_on) is None,
    ensures
        depends_on.no_duplicates(),
        forall|i: int|
            0 <= i < depends_on.len() ==> {
                &&& records.contains_key(#[trigger] depends_on[i])
                &&& depends_on[i] != proposal_id
            },
    decreases depends_on.len(),
{
    if depends_on.len() > 0 {
        let shorter = depends_on.drop_last();
        law_accepted_dependencies_exist(records, proposal_id, shorter);
        assert forall|i: int| 0 <= i < depends_on.len() implies {
            &&& records.contains_key(#[trigger] depends_on[i])
            &&& depends_on[i] != proposal_id
        } by {
            if i < shorter.len() {
                assert(shorter[i] == depends_on[i]);
            }
        }
        assert forall|i: int, j: int|
            0 <= i < j < depends_on.len() implies depends_on[i] != depends_on[j] by {
            assert(shorter[i] == depends_on[i]);
            if j < shorter.len() {
                assert(shorter[j] == depends_on[j]);
            }
        }
    }
}

impl VaultDAO {
    /// Walks along dependencies from a proposal in search of another.
    pub fn has_dependency_path(
        env: &Env,
        from_id: u64,
        target_id: u64,
        visited: &mut Vec<u64>,
    ) -> (r: Result<bool, VaultError>)
        requires
            old(visited)@.len() <= MAX_DEP_DEPTH,
        ensures
            (final(visited)@, r) == explore(env@.proposals.records, from_id, target_id, old(visited)@),
        decreases MAX_DEP_DEPTH + 1 - old(visited)@.len(),
    {
        if from_id == target_id {
            return Ok(true);
        }
        if visited.len() >= MAX_DEP_DEPTH {
            return Err(VaultError::DependencyDepthExceeded);
        }
        if list_contains(visited, &from_id) {
            return Ok(false);
        }
        visited.push(from_id);
        let ghost marked = visited@;
        let proposal = match storage::get_proposal(env, from_id) {
            Ok(proposal) => proposal,
            Err(_) => return Err(VaultError::ProposalNotFound),
        };
        let deps = &proposal.depends_on;
        assert(deps@.skip(0) =~= deps@);
        let mut i: usize = 0;
        while i < deps.len()
            invariant
                i <= deps.len(),
                old(visited)@.len() < marked.len() <= visited@.len() <= MAX_DEP_DEPTH,
                explore_each(env@.proposals.records, deps@, target_id, marked) == explore_each(
                    env@.proposals.records,
                    deps@.skip(i as int),
                    target_id,
                    visited@,
                ),
                explore(env@.proposals.records, from_id, target_id, old(visited)@) == explore_each(
                    env@.proposals.records,
                    deps@,
                    target_id,
                    marked,
                ),
            decreases deps.len() - i,
        {
            let ghost before = visited@;
            proof {
                lemma_explore_grows(env@.proposals.records, deps@[i as int], target_id, before);
                assert(deps@.skip(i as int)[0] == deps@[i as int]);
                assert(deps@.skip(i as int).skip(1) =~= deps@.skip(i + 1));
            }
            let found = Self::has_dependency_path(env, deps[i], target_id, visited)?;
            if found {
                return Ok(true);
            }
            i += 1;
        }
        Ok(false)
    }

    /// Decides whether a new proposal may have the given dependencies.
    pub fn validate_dependencies(env: &Env, proposal_id: u64, depends_on: &Vec<u64>) -> (r: Result<
        (),
        VaultError,
    >)
        ensures
            r == crate::errors::unless(dependencies_refusal(env@.proposals.records, proposal_id, depends_on@)),
    {
        let mut seen: Vec<u64> = Vec::new();
        let mut i: usize = 0;
        while i < depends_on.len()
            invariant
                i <= depends_on.len(),
                seen@ == depends_on@.take(i as int),
                dependencies_refusal(env@.proposals.records, proposal_id, depends_on@.take(i as int)) is None,
            decreases depends_on.len() - i,
        {
            let dependency_id: u64 = depends_on[i];
            proof {
                let next = depends_on@.take(i + 1);
                assert(next.drop_last() =~= depends_on@.take(i as int));
                lemma_first_refusal(env@.proposals.records, proposal_id, depends_on@, i + 1);
            }
            if dependency_id == proposal_id {
                return Err(VaultError::CircularDependency);
            }
            if list_contains(&seen, &dependency_id) {
                return Err(VaultError::CircularDependency);
            }
            if !storage::proposal_exists(env, dependency_id) {
                return Err(VaultError::ProposalNotFound);
            }
            let mut visited: Vec<u64> = Vec::new();
            match Self::has_dependency_path(env, dependency_id, proposal_id, &mut visited) {
                Ok(true) => return Err(VaultError::CircularDependency),
                Err(error) => return Err(error),
                Ok(false) => {},
            }
            seen.push(dependency_id);
            i += 1;
            assert(seen@ =~= depends_on@.take(i as int));
        }
        assert(depends_on@.take(depends_on@.len() as int) =~= depends_on@);
        Ok(())
    }

    /// Decides whether all proposals that a proposal depends on were executed.
    pub fn ensure_dependencies_executable(env: &Env, proposal: &Proposal) -> (r: Result<
        (),
        VaultError,
    >)
        ensures
            r == crate::errors::unless(waits(env@.proposals.records, proposal.id, proposal.depends_on@)),
    {
        let deps = &proposal.depends_on;
        let mut i: usize = 0;
        while i < deps.len()
            invariant
                i <= deps.len(),
                waits(env@.proposals.records, proposal.id, deps@.take(i as int)) is None,
                deps@ == proposal.depends_on@,
            decreases deps.len() - i,
        {
            let dependency_id: u64 = deps[i];
            proof {
                assert(deps@.take(i + 1).drop_last() =~= deps@.take(i as int));
                lemma_first_wait(env@.proposals.records, proposal.id, deps@, i + 1);
            }
            if dependency_id == proposal.id {
                return Err(VaultError::CircularDependency);
            }
            let mut visited: Vec<u64> = Vec::new();
            match Self::has_dependency_path(env, dependency_id, proposal.id, &mut visited) {
                Ok(true) => return Err(VaultError::CircularDependency),
                Err(error) => return Err(error),
                Ok(false) => {},
            }
            let dependency = match storage::get_proposal(env, dependency_id) {
                Ok(found) => found,
                Err(_) => return Err(VaultError::ProposalNotFound),
            };
            if dependency.status != ProposalStatus::Executed {
                return Err(VaultError::ProposalNotApproved);
            }
            i += 1;
        }
        assert(deps@.take(deps@.len() as int) =~= deps@);
        Ok(())
    }
}

/// A refusal of the first dependencies is a refusal of all.
proof fn lemma_first_refusal(records: Map<u64, ProposalModel>, proposal_id: u64, depends_on: Seq<u64>, n: int)
    requires
        0 <= n <= depends_on.len(),
    ensures
        dependencies_refusal(records, proposal_id, depends_on.take(n)) is Some
            ==> dependencies_refusal(records, proposal_id, depends_on) == dependencies_refusal(
            records,
            proposal_id,
            depends_on.take(n),
        ),
    decreases depends_on.len() - n,
{
    if n == depends_on.len() {
        assert(depends_on.take(n) =~= depends_on);
    } else {
        lemma_first_refusal(records, proposal_id, depends_on, n + 1);
        assert(depends_on.take(n + 1).drop_last() =~= depends_on.take(n));
    }
}

/// A reason to wait for the first dependencies is a reason to wait for all.
proof fn lemma_first_wait(records: Map<u64, ProposalModel>, proposal_id: u64, depends_on: Seq<u64>, n: int)
    requires
        0 <= n <= depends_on.len(),
    ensures
        waits(records, proposal_id, depends_on.take(n)) is Some ==> waits(records, proposal_id, depends_on)
            == waits(records, proposal_id, depends_on.take(n)),
    decreases depends_on.len() - n,
{
    if n == depends_on.len() {
        assert(depends_on.take(n) =~= depends_on);
    } else {
        lemma_first_wait(records, proposal_id, depends_on, n + 1);
        assert(depends_on.take(n + 1).drop_last() =~= depends_on.take(n));
    }
}

} // verus!
