//! What holds of the lists of scheduled proposals.

use vstd::prelude::*;

use crate::env::EnvModel;
use crate::types::ProposalModel;

verus! {

/// Whether a proposal is to be executed at a ledger from `start` to `end`.
pub open spec fn due_within(proposal: ProposalModel, start: u64, end: u64) -> bool {
    proposal.execution_time matches Some(time) && start <= time <= end
}

/// Whether proposals are listed in the order in which they are due.
spec fn in_order(env: EnvModel, list: Seq<u64>) -> bool {
    forall|i: int, j: int|
        0 <= i < j < list.len() ==> env.comes_before(#[trigger] list[i], #[trigger] list[j])
}

/// What is kept of a list in order is in order, and is what the list holds and the test admits.
proof fn lemma_kept(env: EnvModel, list: Seq<u64>, keep: spec_fn(u64) -> bool)
    requires
        in_order(env, list),
    ensures
        in_order(env, list.filter(keep)),
        forall|id: u64| #[trigger]
            list.filter(keep).contains(id) <==> list.contains(id) && keep(id),
    decreases list.len(),
{
    reveal(Seq::filter);
    let kept = list.filter(keep);
    if list.len() > 0 {
        let rest = list.drop_last();
        assert forall|i: int, j: int| 0 <= i < j < rest.len() implies env.comes_before(
            #[trigger] rest[i],
            #[trigger] rest[j],
        ) by {
            assert(env.comes_before(list[i], list[j]));
        }
        lemma_kept(env, rest, keep);
        let earlier = rest.filter(keep);
        assert(kept == if keep(list.last()) {
            earlier.push(list.last())
        } else {
            earlier
        });
        assert forall|id: u64| #[trigger] kept.contains(id) <==> list.contains(id) && keep(id) by {
            assert(list =~= rest.push(list.last()));
            crate::primitives::lemma_push_contains(rest, list.last(), id);
            crate::primitives::lemma_push_contains(earlier, list.last(), id);
        }
        assert forall|i: int, j: int| 0 <= i < j < kept.len() implies env.comes_before(
            #[trigger] kept[i],
            #[trigger] kept[j],
        ) by {
            if j == earlier.len() {
                assert(earlier.contains(earlier[i]));
                let k = choose|k: int| 0 <= k < rest.len() && rest[k] == earlier[i];
                assert(env.comes_before(list[k], list[list.len() - 1]));
            } else {
                assert(env.comes_before(earlier[i], earlier[j]));
            }
        }
    } else {
        assert(kept =~= list);
    }
}

/// Two lists in order that hold the same proposals are equal.
proof fn lemma_same_order(env: EnvModel, a: Seq<u64>, b: Seq<u64>)
    requires
        in_order(env, a),
        in_order(env, b),
        forall|id: u64| #[trigger] a.contains(id) <==> b.contains(id),
    ensures
        a == b,
    decreases a.len() + b.len(),
{
    if a.len() == 0 {
        if b.len() > 0 {
            assert(b.contains(b[0]));
            assert(a.contains(b[0]));
        }
        assert(a =~= b);
    } else {
        assert(a.contains(a[0]));
        assert(b.contains(a[0]));
        let k = choose|k: int| 0 <= k < b.len() && b[k] == a[0];
        assert(b.contains(b[0]));
        assert(a.contains(b[0]));
        let m = choose|m: int| 0 <= m < a.len() && a[m] == b[0];
        if k > 0 && m > 0 {
            assert(env.comes_before(b[0], b[k]));
            assert(env.comes_before(a[0], a[m]));
        }
        assert(a[0] == b[0]);
        let ta = a.skip(1);
        let tb = b.skip(1);
        assert forall|i: int, j: int| 0 <= i < j < ta.len() implies env.comes_before(
            #[trigger] ta[i],
            #[trigger] ta[j],
        ) by {
            assert(env.comes_before(a[i + 1], a[j + 1]));
        }
        assert forall|i: int, j: int| 0 <= i < j < tb.len() implies env.comes_before(
            #[trigger] tb[i],
            #[trigger] tb[j],
        ) by {
            assert(env.comes_before(b[i + 1], b[j + 1]));
        }
        assert forall|id: u64| #[trigger] ta.contains(id) <==> tb.contains(id) by {
            lemma_rest(env, a, id);
            lemma_rest(env, b, id);
        }
        lemma_same_order(env, ta, tb);
        assert(a =~= seq![a[0]] + ta);
        assert(b =~= seq![b[0]] + tb);
    }
}

/// What follows the first of a list in order is all but the first.
proof fn lemma_rest(env: EnvModel, list: Seq<u64>, id: u64)
    requires
        in_order(env, list),
        list.len() > 0,
    ensures
        list.skip(1).contains(id) <==> list.contains(id) && id != list[0],
{
    let rest = list.skip(1);
    if rest.contains(id) {
        let i = choose|i: int| 0 <= i < rest.len() && rest[i] == id;
        assert(list[i + 1] == id);
        assert(env.comes_before(list[0], list[i + 1]));
    }
    if list.contains(id) && id != list[0] {
        let i = choose|i: int| 0 <= i < list.len() && list[i] == id;
        assert(rest[i - 1] == id);
    }
}

/// Looking proposals up and keeping some of them can be done in either order.
proof fn lemma_found_and_kept(
    env: EnvModel,
    ids: Seq<u64>,
    keep_id: spec_fn(u64) -> bool,
    keep: spec_fn(ProposalModel) -> bool,
)
    requires
        forall|i: int|
            0 <= i < ids.len() ==> keep_id(#[trigger] ids[i]) == keep(
                env.proposal(ids[i])->Ok_0,
            ),
    ensures
        env.proposals_of(ids.filter(keep_id)) == env.proposals_of(ids).filter(keep),
    decreases ids.len(),
{
    reveal(Seq::filter);
    let found = env.proposals_of(ids);
    if ids.len() > 0 {
        let rest = ids.drop_last();
        assert forall|i: int| 0 <= i < rest.len() implies keep_id(#[trigger] rest[i]) == keep(
            env.proposal(rest[i])->Ok_0,
        ) by {
            assert(rest[i] == ids[i]);
        }
        lemma_found_and_kept(env, rest, keep_id, keep);
        assert(found.drop_last() =~= env.proposals_of(rest));
        assert(ids[ids.len() - 1] == ids.last());
        assert(found.last() == env.proposal(ids.last())->Ok_0);
        if keep_id(ids.last()) {
            assert(env.proposals_of(rest.filter(keep_id).push(ids.last())) =~= env.proposals_of(
                rest.filter(keep_id),
            ).push(found.last()));
        }
    } else {
        assert(found =~= Seq::empty());
        assert(env.proposals_of(ids.filter(keep_id)) =~= found.filter(keep));
    }
}

/// The scheduled proposals of a range are all scheduled proposals, filtered to that range, in
/// the same order. A range that ends before it starts holds none.
pub proof fn law_ranges_filter_the_scheduled_list(env: EnvModel, start: u64, end: u64)
    ensures
        ({
            let all = env.by_time(env.scheduled_ids(None));
            let ranged = env.by_time(env.scheduled_ids(Some((start, end))));
            &&& ranged == all.filter(|id: u64| env.scheduled(id, Some((start, end))))
            &&& env.proposals_of(ranged) == env.proposals_of(all).filter(
                |proposal: ProposalModel| due_within(proposal, start, end),
            )
            &&& start > end ==> ranged.len() == 0
        }),
{
    let all = env.by_time(env.scheduled_ids(None));
    let ranged = env.by_time(env.scheduled_ids(Some((start, end))));
    let keep_id = |id: u64| env.scheduled(id, Some((start, end)));
    let keep = |proposal: ProposalModel| due_within(proposal, start, end);
    crate::scheduling::law_scheduled_lists_are_ordered(env, None);
    crate::scheduling::law_scheduled_lists_are_ordered(env, Some((start, end)));
    lemma_kept(env, all, keep_id);
    assert forall|id: u64| #[trigger] ranged.contains(id) <==> all.filter(keep_id).contains(id) by {
        assert(env.scheduled(id, Some((start, end))) ==> env.scheduled(id, None));
        assert(all.filter(keep_id).contains(id) <==> all.contains(id) && keep_id(id));
    }
    lemma_same_order(env, ranged, all.filter(keep_id));
    assert forall|i: int| 0 <= i < all.len() implies keep_id(#[trigger] all[i]) == keep(
        env.proposal(all[i])->Ok_0,
    ) by {
        assert(all.contains(all[i]));
        assert(env.scheduled(all[i], None));
    }
    lemma_found_and_kept(env, all, keep_id, keep);
    if start > end && ranged.len() > 0 {
        assert(ranged.contains(ranged[0]));
    }
}

} // verus!
