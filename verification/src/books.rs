//! How the movements of funds that a call asks for, the events that it tells, and the amounts that
//! a vault keeps are read off its state.

use vstd::prelude::*;

use crate::env::{Action, EnvModel, Event};
use crate::primitives::Address;
use crate::types::{ListMode, Role};

verus! {

/// Whether an action moves funds.
pub open spec fn moves_funds(action: Action) -> bool {
    action is Transfer || action is TransferToVault || action is TriedTransfer || action is TakeBack
}

/// The movements of funds among some actions, in order.
pub open spec fn movements(actions: Seq<Action>) -> Seq<Action>
    decreases actions.len(),
{
    if actions.len() == 0 {
        Seq::empty()
    } else {
        let earlier = movements(actions.drop_last());
        if moves_funds(actions.last()) {
            earlier.push(actions.last())
        } else {
            earlier
        }
    }
}

/// Whether a call asked for exactly the given movements of funds, in order.
pub open spec fn moved(before: EnvModel, after: EnvModel, added: Seq<Action>) -> bool {
    movements(after.actions) =~= movements(before.actions) + added
}

/// The amount that is kept under a key, zero where there is none.
pub open spec fn kept<K>(amounts: Map<K, i128>, key: K) -> int {
    if amounts.contains_key(key) {
        amounts[key] as int
    } else {
        0
    }
}

/// What was spent or reserved on the day of the ledger.
pub open spec fn spent_today(env: EnvModel) -> int {
    kept(env.treasury.daily_spent, env.ledger.timestamp / 86_400)
}

/// What was spent or reserved in the week of the ledger.
pub open spec fn spent_this_week(env: EnvModel) -> int {
    kept(env.treasury.weekly_spent, env.ledger.timestamp / 604_800)
}

/// Whether an address was given the role of an admin.
pub open spec fn is_admin(env: EnvModel, addr: Address) -> bool {
    env.access.roles.contains_key(addr) && env.access.roles[addr] == Role::Admin
}

/// Whether an address was given the role of a treasurer or an admin.
pub open spec fn is_treasurer(env: EnvModel, addr: Address) -> bool {
    is_admin(env, addr) || (env.access.roles.contains_key(addr) && env.access.roles[addr]
        == Role::Treasurer)
}

/// Whether the recipient lists let funds go to an address.
pub open spec fn may_receive(env: EnvModel, addr: Address) -> bool {
    let white = env.access.whitelist;
    let black = env.access.blacklist;
    &&& env.access.list_mode == ListMode::Whitelist ==> white.contains_key(addr) && white[addr]
    &&& env.access.list_mode == ListMode::Blacklist ==> !(black.contains_key(addr) && black[addr])
}

/// The ledger of a call.
pub open spec fn ledger_of(env: EnvModel) -> int {
    env.ledger.sequence as int
}

/// The smaller of two numbers.
pub open spec fn least(a: int, b: int) -> int {
    if a < b {
        a
    } else {
        b
    }
}

/// The larger of two numbers.
pub open spec fn most(a: int, b: int) -> int {
    if a < b {
        b
    } else {
        a
    }
}

/// The list under a key, empty where there is none.
pub open spec fn listed<K, T>(lists: Map<K, Seq<T>>, key: K) -> Seq<T> {
    if lists.contains_key(key) {
        lists[key]
    } else {
        Seq::empty()
    }
}

/// One more action adds at most one movement of funds.
pub broadcast proof fn lemma_movements_push(actions: Seq<Action>, action: Action)
    ensures
        #[trigger] movements(actions.push(action)) == if moves_funds(action) {
            movements(actions).push(action)
        } else {
            movements(actions)
        },
{
    assert(actions.push(action).drop_last() =~= actions);
}

/// The events among some actions, in order.
pub open spec fn announced(actions: Seq<Action>) -> Seq<Event>
    decreases actions.len(),
{
    if actions.len() == 0 {
        Seq::empty()
    } else {
        match actions.last() {
            Action::Publish(event) => announced(actions.drop_last()).push(event),
            _ => announced(actions.drop_last()),
        }
    }
}

/// Whether a call told observers exactly the given events, in order.
pub open spec fn told(before: EnvModel, after: EnvModel, events: Seq<Event>) -> bool {
    announced(after.actions) =~= announced(before.actions) + events
}

/// One more action adds at most one event.
pub broadcast proof fn lemma_announced_push(actions: Seq<Action>, action: Action)
    ensures
        #[trigger] announced(actions.push(action)) == match action {
            Action::Publish(event) => announced(actions).push(event),
            _ => announced(actions),
        },
{
    assert(actions.push(action).drop_last() =~= actions);
}

} // verus!
