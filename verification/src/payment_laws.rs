//! What holds of recurring payments, streams and escrows: who is paid what, when, and how often.

use vstd::prelude::*;

use crate::books::{
    is_admin, is_treasurer, kept, least, ledger_of, may_receive, most, moved, spent_this_week,
    spent_today,
};
use crate::env::{Action, EnvModel, PaymentsModel, TreasuryModel};
use crate::errors::VaultError;
use crate::primitives::{Address, Symbol};
use crate::types::{
    EscrowModel, EscrowStatus, Milestone, RecurringPayment, StreamStatus, StreamingPayment,
};

verus! {

broadcast use crate::books::lemma_movements_push;

/// A recurring payment is scheduled by a treasurer or an admin, for a positive amount to a
/// recipient that the lists allow, at most once an hour. It is first due one interval later, and
/// nothing moves before.
pub proof fn law_recurring_payments_are_scheduled(
    env: EnvModel,
    proposer: Address,
    recipient: Address,
    token: Address,
    amount: i128,
    memo: Symbol,
    interval: u64,
)
    requires
        env.payments.next_recurring_id < u64::MAX,
        env.ledger.sequence + interval <= u64::MAX,
    ensures
        ({
            let (after, r) = env.schedule_payment(proposer, recipient, token, amount, memo, interval);
            let id = env.payments.next_recurring_id;
            let allowed = is_treasurer(env, proposer) && amount > 0 && may_receive(env, recipient)
                && interval >= 720;
            &&& r is Ok <==> allowed
            &&& r is Err ==> after == env
            &&& !is_treasurer(env, proposer) ==> r == Err::<u64, _>(VaultError::InsufficientRole)
            &&& is_treasurer(env, proposer) && amount <= 0 ==> r == Err::<u64, _>(
                VaultError::InvalidAmount,
            )
            &&& is_treasurer(env, proposer) && amount > 0 && may_receive(env, recipient)
                && interval < 720 ==> r == Err::<u64, _>(VaultError::IntervalTooShort)
            &&& r is Ok ==> {
                &&& r == Ok::<u64, VaultError>(id)
                &&& moved(env, after, seq![])
                &&& after.treasury == env.treasury
                &&& after.payments == (PaymentsModel {
                    next_recurring_id: (id + 1) as u64,
                    recurring: env.payments.recurring.insert(
                        id,
                        RecurringPayment {
                            id,
                            proposer,
                            recipient,
                            token,
                            amount,
                            memo,
                            interval,
                            next_payment_ledger: (ledger_of(env) + interval) as u64,
                            payment_count: 0,
                            is_active: true,
                        },
                    ),
                    ..env.payments
                })
            }
        }),
{
}

/// A recurring payment is made exactly when it is active and due, the vault holds the amount, the
/// lists allow its recipient, and the day and the week have room for it. It pays its amount to
/// its recipient, once; raises what was spent on the day and in the week by that amount, within
/// their limits; and is due again one interval after it was due. Otherwise nothing changes.
pub proof fn law_recurring_payments_count_towards_the_limits(
    env: EnvModel,
    id: u64,
    balance: i128,
)
    requires
        env.payments.recurring.contains_key(id),
        ({
            let payment = env.payments.recurring[id];
            &&& payment.id == id
            &&& payment.amount > 0
            &&& payment.next_payment_ledger + payment.interval <= u64::MAX
            &&& payment.payment_count < u32::MAX
        }),
    ensures
        ({
            let payment = env.payments.recurring[id];
            let (after, r) = env.pay_recurring(id, balance);
            let day = env.ledger.timestamp / 86_400;
            let week = env.ledger.timestamp / 604_800;
            let due = payment.is_active && ledger_of(env) >= payment.next_payment_ledger;
            let config = env.access.config->0;
            let day_fits = spent_today(env) + payment.amount <= config.daily_limit;
            let week_fits = spent_this_week(env) + payment.amount <= config.weekly_limit;
            &&& r is Ok <==> due && env.access.config is Some && day_fits && week_fits && balance
                >= payment.amount && may_receive(env, payment.recipient)
            &&& r is Err ==> after == env
            &&& !payment.is_active ==> r == Err::<(), _>(VaultError::ProposalNotFound)
            &&& payment.is_active && !due ==> r == Err::<(), _>(VaultError::TimelockNotExpired)
            &&& due && env.access.config is Some ==> {
                &&& !day_fits ==> r == Err::<(), _>(VaultError::ExceedsDailyLimit)
                &&& day_fits && !week_fits ==> r == Err::<(), _>(VaultError::ExceedsWeeklyLimit)
                &&& day_fits && week_fits && balance < payment.amount ==> r == Err::<(), _>(
                    VaultError::InsufficientBalance,
                )
            }
            &&& r is Ok ==> {
                &&& moved(
                    env,
                    after,
                    seq![
                        Action::Transfer {
                            token: payment.token,
                            to: payment.recipient,
                            amount: payment.amount,
                        },
                    ],
                )
                &&& spent_today(after) == spent_today(env) + payment.amount
                &&& spent_this_week(after) == spent_this_week(env) + payment.amount
                &&& spent_today(after) <= config.daily_limit
                &&& spent_this_week(after) <= config.weekly_limit
                &&& after.treasury == (TreasuryModel {
                    daily_spent: after.treasury.daily_spent,
                    weekly_spent: after.treasury.weekly_spent,
                    ..env.treasury
                })
                &&& forall|d: u64|
                    d != day ==> #[trigger] kept(after.treasury.daily_spent, d) == kept(
                        env.treasury.daily_spent,
                        d,
                    )
                &&& forall|w: u64|
                    w != week ==> #[trigger] kept(after.treasury.weekly_spent, w) == kept(
                        env.treasury.weekly_spent,
                        w,
                    )
                &&& after.payments == (PaymentsModel {
                    recurring: env.payments.recurring.insert(
                        id,
                        RecurringPayment {
                            next_payment_ledger: (payment.next_payment_ledger
                                + payment.interval) as u64,
                            payment_count: (payment.payment_count + 1) as u32,
                            ..payment
                        },
                    ),
                    ..env.payments
                })
            }
        }),
{
}

/// A recurring payment is stopped by its proposer or an admin, which changes nothing else about
/// it and moves nothing.
pub proof fn law_recurring_payments_are_stopped(env: EnvModel, caller: Address, id: u64)
    requires
        env.payments.recurring.contains_key(id),
        env.payments.recurring[id].id == id,
    ensures
        ({
            let payment = env.payments.recurring[id];
            let (after, r) = env.stop_recurring(caller, id);
            &&& r is Ok <==> caller == payment.proposer || is_admin(env, caller)
            &&& r is Err ==> after == env && r == Err::<(), _>(VaultError::Unauthorized)
            &&& r is Ok ==> {
                &&& moved(env, after, seq![])
                &&& after.payments == (PaymentsModel {
                    recurring: env.payments.recurring.insert(
                        id,
                        RecurringPayment { is_active: false, ..payment },
                    ),
                    ..env.payments
                })
            }
        }),
{
}

/// Whether a stream was never paused or cancelled: the seconds that count are those from its
/// start to its last update, up to its end.
pub open spec fn never_paused(stream: StreamingPayment) -> bool {
    &&& stream.status == StreamStatus::Active || stream.status == StreamStatus::Completed
    &&& stream.start_timestamp <= stream.last_update_timestamp
    &&& stream.start_timestamp <= stream.end_timestamp
    &&& stream.accumulated_seconds == least(
        stream.last_update_timestamp as int,
        stream.end_timestamp as int,
    ) - stream.start_timestamp
    &&& stream.status == StreamStatus::Completed ==> stream.claimed_amount == stream.total_amount
}

/// A treasurer or an admin creates a stream, with a positive rate, amount and duration and a
/// recipient that the lists allow. The whole amount is collected from the sender, and the stream
/// starts now and ends after its duration, with nothing claimed.
pub proof fn law_streams_are_funded_in_full(
    env: EnvModel,
    sender: Address,
    recipient: Address,
    token: Address,
    rate: i128,
    total: i128,
    duration: u64,
)
    requires
        env.payments.next_stream_id < u64::MAX,
        env.ledger.timestamp + duration <= u64::MAX,
    ensures
        ({
            let (after, r) = env.create_stream(sender, recipient, token, rate, total, duration);
            let id = env.payments.next_stream_id;
            let now = env.ledger.timestamp;
            &&& r is Ok <==> is_treasurer(env, sender) && rate > 0 && total > 0 && duration > 0
                && may_receive(env, recipient)
            &&& r is Err ==> after == env
            &&& !is_treasurer(env, sender) ==> r == Err::<u64, _>(VaultError::InsufficientRole)
            &&& is_treasurer(env, sender) && (rate <= 0 || total <= 0 || duration == 0) ==> r
                == Err::<u64, _>(VaultError::InvalidAmount)
            &&& r is Ok ==> {
                let stream = after.payments.streams[id];
                &&& r == Ok::<u64, VaultError>(id)
                &&& moved(
                    env,
                    after,
                    seq![Action::TransferToVault { token, from: sender, amount: total }],
                )
                &&& after.treasury == env.treasury
                &&& after.payments == (PaymentsModel {
                    next_stream_id: (id + 1) as u64,
                    streams: env.payments.streams.insert(
                        id,
                        StreamingPayment {
                            id,
                            sender,
                            recipient,
                            token_addr: token,
                            rate,
                            total_amount: total,
                            claimed_amount: 0,
                            start_timestamp: now,
                            end_timestamp: (now + duration) as u64,
                            last_update_timestamp: now,
                            accumulated_seconds: 0,
                            status: StreamStatus::Active,
                        },
                    ),
                    ..env.payments
                })
                &&& never_paused(stream)
            }
        }),
{
}

/// What was earned of a stream at a time: its rate for every second that counts, up to what was
/// committed. Seconds count while the stream is active, and up to its end.
pub open spec fn flowed(stream: StreamingPayment, now: u64) -> int {
    let running = if stream.status == StreamStatus::Active {
        most(least(now as int, stream.end_timestamp as int) - stream.last_update_timestamp, 0)
    } else {
        0
    };
    least(stream.rate * (stream.accumulated_seconds + running), stream.total_amount as int)
}

/// A claim pays the recipient all that was earned and not claimed, and nobody else anything. It
/// is refused where there is nothing to claim, to anyone else, and once the stream is cancelled;
/// a transfer that fails leaves the stream as it was.
pub proof fn law_claims_pay_what_was_earned(
    env: EnvModel,
    recipient: Address,
    id: u64,
    transferred: bool,
)
    requires
        env.payments.streams.contains_key(id),
        ({
            let stream = env.payments.streams[id];
            &&& stream.id == id
            &&& stream.rate > 0
            &&& 0 <= stream.claimed_amount <= stream.total_amount
            &&& stream.accumulated_seconds + env.ledger.timestamp <= u64::MAX
        }),
    ensures
        ({
            let stream = env.payments.streams[id];
            let now = env.ledger.timestamp;
            let (after, r) = env.claim_stream(recipient, id, transferred);
            let left = flowed(stream, now) - stream.claimed_amount;
            let entitled = recipient == stream.recipient && stream.status
                != StreamStatus::Cancelled && left > 0;
            &&& r is Ok <==> entitled && transferred
            &&& recipient != stream.recipient ==> r == Err::<i128, _>(VaultError::Unauthorized)
            &&& recipient == stream.recipient && !entitled ==> r == Err::<i128, _>(
                VaultError::InvalidAmount,
            )
            &&& entitled && !transferred ==> r == Err::<i128, _>(VaultError::InsufficientBalance)
            &&& !entitled ==> after == env
            &&& r is Err ==> after.payments == env.payments
            &&& after.treasury == env.treasury
            &&& entitled ==> moved(
                env,
                after,
                seq![
                    Action::TriedTransfer {
                        token: stream.token_addr,
                        to: recipient,
                        amount: left as i128,
                        done: transferred,
                    },
                ],
            )
            &&& r is Ok ==> {
                let claimed = after.payments.streams[id];
                &&& r == Ok::<i128, VaultError>(left as i128)
                &&& after.payments == (PaymentsModel {
                    streams: env.payments.streams.insert(id, claimed),
                    ..env.payments
                })
                &&& claimed == (StreamingPayment {
                    claimed_amount: claimed.claimed_amount,
                    accumulated_seconds: claimed.accumulated_seconds,
                    last_update_timestamp: now,
                    status: claimed.status,
                    ..stream
                })
                &&& claimed.claimed_amount == stream.claimed_amount + left
                &&& claimed.claimed_amount <= stream.total_amount
                &&& claimed.status == if claimed.claimed_amount == stream.total_amount {
                    StreamStatus::Completed
                } else {
                    stream.status
                }
                &&& claimed.accumulated_seconds == stream.accumulated_seconds + if stream.status
                    == StreamStatus::Active {
                    most(
                        least(now as int, stream.end_timestamp as int)
                            - stream.last_update_timestamp,
                        0,
                    )
                } else {
                    0
                }
            }
        }),
{
}

/// What was claimed of a stream that was never paused, together with what can be claimed, is its
/// rate for every second from its start up to now or its end, whichever comes first, but no more
/// than what was committed. Nothing more is earned after its end; and claiming keeps it so.
pub proof fn law_streams_flow_from_start_to_end(
    env: EnvModel,
    recipient: Address,
    id: u64,
    transferred: bool,
)
    requires
        env.payments.streams.contains_key(id),
        ({
            let stream = env.payments.streams[id];
            &&& stream.id == id
            &&& stream.rate > 0
            &&& 0 <= stream.claimed_amount <= stream.total_amount
            &&& never_paused(stream)
            &&& stream.last_update_timestamp <= env.ledger.timestamp
        }),
    ensures
        ({
            let stream = env.payments.streams[id];
            let (after, r) = env.claim_stream(recipient, id, transferred);
            let seconds = least(env.ledger.timestamp as int, stream.end_timestamp as int)
                - stream.start_timestamp;
            let due = least(stream.rate * seconds, stream.total_amount as int);
            &&& r is Ok ==> stream.claimed_amount + r->Ok_0 == due
            &&& r is Ok ==> after.payments.streams[id].claimed_amount == due
            &&& recipient == stream.recipient && transferred ==> (r is Ok <==> due
                > stream.claimed_amount)
            &&& after.payments.streams.contains_key(id)
            &&& never_paused(after.payments.streams[id])
        }),
{
    let stream = env.payments.streams[id];
    let now = env.ledger.timestamp as int;
    let counted = least(stream.last_update_timestamp as int, stream.end_timestamp as int)
        - stream.start_timestamp;
    let seconds = least(now, stream.end_timestamp as int) - stream.start_timestamp;
    if stream.status == StreamStatus::Active {
        assert(stream.active_seconds(env.ledger.timestamp) == seconds);
    } else {
        assert(stream.rate * counted <= stream.rate * seconds) by (nonlinear_arith)
            requires
                stream.rate > 0,
                counted <= seconds,
        ;
    }
}

/// Nothing more is earned of a stream after its end.
pub proof fn law_streams_end(env: EnvModel, later: EnvModel, recipient: Address, id: u64)
    requires
        later.payments == env.payments,
        env.payments.streams.contains_key(id),
        env.payments.streams[id].end_timestamp <= env.ledger.timestamp,
        env.payments.streams[id].end_timestamp <= later.ledger.timestamp,
    ensures
        later.claim_stream(recipient, id, true).1 == env.claim_stream(recipient, id, true).1,
{
}

/// The sender of a stream or an admin pauses an active stream and resumes a paused one. Pausing
/// counts the seconds up to now, or up to the end; resuming lets them count again from now on.
/// Neither moves funds or changes what was claimed.
pub proof fn law_streams_are_paused_and_resumed(env: EnvModel, caller: Address, id: u64)
    requires
        env.payments.streams.contains_key(id),
        env.payments.streams[id].id == id,
        env.payments.streams[id].accumulated_seconds + env.ledger.timestamp <= u64::MAX,
    ensures
        ({
            let stream = env.payments.streams[id];
            let now = env.ledger.timestamp;
            let entitled = caller == stream.sender || is_admin(env, caller);
            let (paused, p) = env.pause_stream(caller, id);
            let (resumed, q) = env.resume_stream(caller, id);
            &&& p is Ok <==> entitled && stream.status == StreamStatus::Active
            &&& q is Ok <==> entitled && stream.status == StreamStatus::Paused
            &&& p is Err ==> paused == env
            &&& q is Err ==> resumed == env
            &&& !entitled ==> p == Err::<(), _>(VaultError::Unauthorized) && q == Err::<(), _>(
                VaultError::Unauthorized,
            )
            &&& entitled && p is Err ==> p == Err::<(), _>(VaultError::ProposalNotPending)
            &&& entitled && q is Err ==> q == Err::<(), _>(VaultError::ProposalNotPending)
            &&& moved(env, paused, seq![])
            &&& moved(env, resumed, seq![])
            &&& p is Ok ==> paused.payments == (PaymentsModel {
                streams: env.payments.streams.insert(
                    id,
                    StreamingPayment {
                        status: StreamStatus::Paused,
                        last_update_timestamp: now,
                        accumulated_seconds: (stream.accumulated_seconds + most(
                            least(now as int, stream.end_timestamp as int)
                                - stream.last_update_timestamp,
                            0,
                        )) as u64,
                        ..stream
                    },
                ),
                ..env.payments
            })
            &&& q is Ok ==> resumed.payments == (PaymentsModel {
                streams: env.payments.streams.insert(
                    id,
                    StreamingPayment {
                        status: StreamStatus::Active,
                        last_update_timestamp: now,
                        ..stream
                    },
                ),
                ..env.payments
            })
        }),
{
}

/// The sender of a stream or an admin cancels a stream that is neither cancelled nor completed.
/// All that was not claimed goes back to the sender, what was claimed is kept, and nothing can be
/// claimed any more. Where the transfer fails the stream stays as it was.
pub proof fn law_cancelled_streams_return_the_rest(
    env: EnvModel,
    caller: Address,
    id: u64,
    transferred: bool,
    claimant: Address,
)
    requires
        env.payments.streams.contains_key(id),
        ({
            let stream = env.payments.streams[id];
            &&& stream.id == id
            &&& 0 <= stream.claimed_amount <= stream.total_amount
        }),
    ensures
        ({
            let stream = env.payments.streams[id];
            let (after, r) = env.cancel_stream(caller, id, transferred);
            let entitled = caller == stream.sender || is_admin(env, caller);
            let open = stream.status != StreamStatus::Cancelled && stream.status
                != StreamStatus::Completed;
            let rest = stream.total_amount - stream.claimed_amount;
            &&& r is Ok <==> entitled && open && (transferred || rest == 0)
            &&& r is Ok ==> r == Ok::<i128, VaultError>(rest as i128)
            &&& !entitled ==> r == Err::<i128, _>(VaultError::Unauthorized)
            &&& entitled && stream.status == StreamStatus::Cancelled ==> r == Err::<i128, _>(
                VaultError::ProposalAlreadyCancelled,
            )
            &&& entitled && stream.status == StreamStatus::Completed ==> r == Err::<i128, _>(
                VaultError::ProposalAlreadyExecuted,
            )
            &&& entitled && open && rest > 0 && !transferred ==> r == Err::<i128, _>(
                VaultError::InsufficientBalance,
            )
            &&& r is Err ==> after.payments == env.payments
            &&& entitled && open && rest > 0 ==> moved(
                env,
                after,
                seq![
                    Action::TriedTransfer {
                        token: stream.token_addr,
                        to: stream.sender,
                        amount: rest as i128,
                        done: transferred,
                    },
                ],
            )
            &&& !(entitled && open && rest > 0) ==> moved(env, after, seq![])
            &&& r is Ok ==> {
                let cancelled = after.payments.streams[id];
                &&& after.payments.streams == env.payments.streams.insert(id, cancelled)
                &&& cancelled.status == StreamStatus::Cancelled
                &&& cancelled.claimed_amount == stream.claimed_amount
                &&& cancelled.total_amount == stream.total_amount
                &&& cancelled.recipient == stream.recipient
                &&& cancelled.sender == stream.sender
                &&& after.claim_stream(claimant, id, true).1 is Err
            }
        }),
{
}

/// The percentages of milestones added up.
pub open spec fn shares(milestones: Seq<Milestone>) -> int {
    milestones.fold_left(0int, |sum: int, m: Milestone| sum + m.percentage)
}

/// The percentages of the completed ones among milestones added up.
pub open spec fn shares_reached(milestones: Seq<Milestone>) -> int {
    milestones.fold_left(
        0int,
        |sum: int, m: Milestone|
            if m.is_completed {
                sum + m.percentage
            } else {
                sum
            },
    )
}

/// Shares add up milestone by milestone.
proof fn lemma_shares(milestones: Seq<Milestone>)
    ensures
        shares(milestones) == crate::escrow::percentage_sum(milestones),
        shares_reached(milestones) == crate::escrow::completed_percentage(milestones),
    decreases milestones.len(),
{
    if milestones.len() > 0 {
        lemma_shares(milestones.drop_last());
    }
}

/// Whether the funds of an escrow are divided: its shares make up the whole, and no more was
/// released than it holds.
pub open spec fn divided(escrow: EscrowModel) -> bool {
    &&& 0 <= escrow.released_amount <= escrow.total_amount
    &&& shares(escrow.milestones) == 100
}

/// An escrow is created over a positive amount whose milestones make up the whole. The amount is
/// collected from the funder and stays in the vault.
pub proof fn law_escrows_are_funded_in_full(
    env: EnvModel,
    funder: Address,
    recipient: Address,
    token: Address,
    amount: i128,
    milestones: Seq<Milestone>,
    duration: u64,
    arbitrator: Address,
)
    requires
        env.payments.next_escrow_id < u64::MAX,
        env.ledger.sequence + duration <= u64::MAX,
    ensures
        ({
            let (after, r) = env.create_escrow(
                funder,
                recipient,
                token,
                amount,
                milestones,
                duration,
                arbitrator,
            );
            let id = env.payments.next_escrow_id;
            &&& r is Ok <==> {
                &&& amount > 0
                &&& milestones.len() > 0
                &&& forall|i: int|
                    0 <= i < milestones.len() ==> 1 <= (#[trigger] milestones[i]).percentage <= 100
                &&& shares(milestones) == 100
            }
            &&& r is Err ==> after == env && r == Err::<u64, _>(VaultError::InvalidAmount)
            &&& r is Ok ==> {
                &&& r == Ok::<u64, VaultError>(id)
                &&& moved(
                    env,
                    after,
                    seq![Action::TransferToVault { token, from: funder, amount }],
                )
                &&& after.treasury == env.treasury
                &&& after.payments.next_escrow_id == id + 1
                &&& after.payments.escrows == env.payments.escrows.insert(
                    id,
                    EscrowModel {
                        id,
                        funder,
                        recipient,
                        token,
                        total_amount: amount,
                        released_amount: 0,
                        milestones,
                        status: EscrowStatus::Active,
                        arbitrator,
                        dispute_reason: after.payments.escrows[id].dispute_reason,
                        created_at: env.ledger.sequence as u64,
                        expires_at: (env.ledger.sequence + duration) as u64,
                        finalized_at: 0,
                    },
                )
                &&& crate::books::listed(after.payments.funder_escrows, funder)
                    == crate::books::listed(env.payments.funder_escrows, funder).push(id)
                &&& crate::books::listed(after.payments.recipient_escrows, recipient)
                    == crate::books::listed(env.payments.recipient_escrows, recipient).push(id)
                &&& divided(after.payments.escrows[id])
            }
        }),
{
    lemma_shares(milestones);
}

/// A milestone after it was completed, if it has the identifier.
spec fn completed(m: Milestone, id: u64, now: u64) -> Milestone {
    if m.id == id {
        Milestone { is_completed: true, completion_ledger: now, ..m }
    } else {
        m
    }
}

/// Whether a milestone does not stand in the way of completing those with an identifier.
spec fn completable(m: Milestone, id: u64, now: u64) -> bool {
    m.id == id ==> !m.is_completed && now >= m.release_ledger
}

/// Completing milestones changes those with the identifier, and nothing else about the others.
proof fn lemma_completed(milestones: Seq<Milestone>, id: u64, now: u64)
    ensures
        match crate::escrow::complete_matching(milestones, id, now) {
            Ok(done) => {
                &&& done.len() == milestones.len()
                &&& forall|i: int|
                    0 <= i < milestones.len() ==> completable(#[trigger] milestones[i], id, now)
                &&& forall|i: int|
                    0 <= i < milestones.len() ==> #[trigger] done[i] == completed(
                        milestones[i],
                        id,
                        now,
                    )
            },
            Err(error) => exists|i: int|
                0 <= i < milestones.len() && !completable(#[trigger] milestones[i], id, now),
        },
    decreases milestones.len(),
{
    if milestones.len() > 0 {
        let rest = milestones.drop_last();
        let last = milestones.len() - 1;
        lemma_completed(rest, id, now);
        assert forall|i: int| 0 <= i < rest.len() implies rest[i] == milestones[i] by {}
        match crate::escrow::complete_matching(rest, id, now) {
            Ok(before) => {
                assert(milestones[last] == milestones.last());
                match crate::escrow::complete_matching(milestones, id, now) {
                    Ok(done) => {
                        assert(done == before.push(completed(milestones[last], id, now)));
                        assert forall|i: int| 0 <= i < milestones.len() implies completable(
                            #[trigger] milestones[i],
                            id,
                            now,
                        ) by {
                            if i < last {
                                assert(completable(rest[i], id, now));
                            }
                        }
                    },
                    Err(_) => {
                        assert(!completable(milestones[last], id, now));
                    },
                }
            },
            Err(_) => {
                let i = choose|i: int|
                    0 <= i < rest.len() && !completable(#[trigger] rest[i], id, now);
                assert(!completable(milestones[i], id, now));
            },
        }
    }
}

/// A milestone is completed while the escrow is active and has not expired, once its ledger is
/// reached, and only once. Other milestones stay as they are. The escrow is complete exactly
/// when all of its milestones are; no funds move before it is released.
pub proof fn law_milestones_are_completed_once(
    env: EnvModel,
    completer: Address,
    escrow_id: u64,
    milestone_id: u64,
)
    requires
        env.payments.escrows.contains_key(escrow_id),
        env.payments.escrows[escrow_id].id == escrow_id,
    ensures
        ({
            let escrow = env.payments.escrows[escrow_id];
            let (after, r) = env.complete_milestone(completer, escrow_id, milestone_id);
            let now = env.ledger.sequence as u64;
            let open = escrow.status == EscrowStatus::Active && now < escrow.expires_at;
            &&& r is Ok <==> {
                &&& open
                &&& exists|i: int|
                    0 <= i < escrow.milestones.len() && (#[trigger] escrow.milestones[i]).id
                        == milestone_id
                &&& forall|i: int|
                    0 <= i < escrow.milestones.len() && (#[trigger] escrow.milestones[i]).id
                        == milestone_id ==> !escrow.milestones[i].is_completed && now
                        >= escrow.milestones[i].release_ledger
            }
            &&& moved(env, after, seq![])
            &&& r is Err ==> after == env
            &&& escrow.status != EscrowStatus::Active ==> r == Err::<(), _>(
                VaultError::ProposalNotPending,
            )
            &&& escrow.status == EscrowStatus::Active && now >= escrow.expires_at ==> r == Err::<
                (),
                _,
            >(VaultError::ProposalExpired)
            &&& r is Ok ==> {
                let done = after.payments.escrows[escrow_id];
                &&& after.payments == (PaymentsModel {
                    escrows: env.payments.escrows.insert(escrow_id, done),
                    ..env.payments
                })
                &&& done == (EscrowModel {
                    milestones: done.milestones,
                    status: done.status,
                    ..escrow
                })
                &&& done.milestones.len() == escrow.milestones.len()
                &&& forall|i: int|
                    0 <= i < escrow.milestones.len() ==> #[trigger] done.milestones[i] == if (
                    escrow.milestones[i].id == milestone_id) {
                        Milestone {
                            is_completed: true,
                            completion_ledger: now,
                            ..escrow.milestones[i]
                        }
                    } else {
                        escrow.milestones[i]
                    }
                &&& done.status == EscrowStatus::MilestonesComplete <==> (forall|i: int|
                    0 <= i < done.milestones.len() ==> (
                    #[trigger] done.milestones[i]).is_completed)
                &&& done.status == EscrowStatus::MilestonesComplete || done.status
                    == EscrowStatus::Active
            }
        }),
{
    let escrow = env.payments.escrows[escrow_id];
    let now = env.ledger.sequence as u64;
    lemma_completed(escrow.milestones, milestone_id, now);
    if let Err(_) = crate::escrow::complete_matching(escrow.milestones, milestone_id, now) {
        let i = choose|i: int|
            0 <= i < escrow.milestones.len() && !completable(
                #[trigger] escrow.milestones[i],
                milestone_id,
                now,
            );
        assert(escrow.milestones[i].id == milestone_id);
    }
}

/// An escrow is released by its funder, its recipient or an admin, once all of its milestones are
/// complete or it has expired, unless it is disputed. Before it expires the recipient gets the
/// shares that were reached; after that the funder gets back all that is left. Nobody else is
/// paid, and what was released is counted.
pub proof fn law_escrows_pay_the_recipient_or_refund_the_funder(
    env: EnvModel,
    caller: Address,
    escrow_id: u64,
)
    requires
        env.payments.escrows.contains_key(escrow_id),
        env.payments.escrows[escrow_id].id == escrow_id,
        divided(env.payments.escrows[escrow_id]),
    ensures
        ({
            let escrow = env.payments.escrows[escrow_id];
            let (after, r) = env.release_escrow(caller, escrow_id);
            let now = env.ledger.sequence as u64;
            let expired = now >= escrow.expires_at;
            let entitled = caller == escrow.funder || caller == escrow.recipient || is_admin(
                env,
                caller,
            );
            let ready = escrow.status != EscrowStatus::Disputed && (expired || escrow.status
                == EscrowStatus::MilestonesComplete);
            let amount = if expired {
                escrow.total_amount - escrow.released_amount
            } else {
                escrow.total_amount * shares_reached(escrow.milestones) / 100
                    - escrow.released_amount
            };
            &&& r is Ok <==> entitled && ready && amount > 0
            &&& r is Err ==> after == env
            &&& !entitled ==> r == Err::<i128, _>(VaultError::Unauthorized)
            &&& entitled && !ready ==> r == Err::<i128, _>(VaultError::ConditionsNotMet)
            &&& entitled && ready && amount <= 0 ==> r == Err::<i128, _>(
                VaultError::ProposalAlreadyExecuted,
            )
            &&& r is Ok ==> {
                let released = after.payments.escrows[escrow_id];
                &&& r == Ok::<i128, VaultError>(amount as i128)
                &&& moved(
                    env,
                    after,
                    seq![
                        Action::Transfer {
                            token: escrow.token,
                            to: if expired {
                                escrow.funder
                            } else {
                                escrow.recipient
                            },
                            amount: amount as i128,
                        },
                    ],
                )
                &&& after.treasury == env.treasury
                &&& after.payments == (PaymentsModel {
                    escrows: env.payments.escrows.insert(escrow_id, released),
                    ..env.payments
                })
                &&& released == (EscrowModel {
                    released_amount: (escrow.released_amount + amount) as i128,
                    status: released.status,
                    finalized_at: released.finalized_at,
                    ..escrow
                })
                &&& divided(released)
                &&& released.released_amount == escrow.total_amount ==> {
                    &&& released.finalized_at == now
                    &&& released.status == if expired {
                        EscrowStatus::Refunded
                    } else {
                        EscrowStatus::Released
                    }
                }
                &&& released.released_amount < escrow.total_amount ==> released.status
                    == escrow.status && released.finalized_at == escrow.finalized_at
            }
        }),
{
    let escrow = env.payments.escrows[escrow_id];
    lemma_shares(escrow.milestones);
    let now = env.ledger.sequence as u64;
    if escrow.releasable(now) > 0 {
        crate::escrow::law_escrows_pay_no_more_than_they_hold(escrow, now);
    }
}

/// The funder of an escrow or an admin disputes it while it is open; that holds its funds.
pub proof fn law_escrows_are_disputed_by_their_funder(
    env: EnvModel,
    disputer: Address,
    escrow_id: u64,
    reason: Symbol,
    caller: Address,
)
    requires
        env.payments.escrows.contains_key(escrow_id),
        env.payments.escrows[escrow_id].id == escrow_id,
    ensures
        ({
            let escrow = env.payments.escrows[escrow_id];
            let (after, r) = env.dispute_escrow(disputer, escrow_id, reason);
            let entitled = disputer == escrow.funder || is_admin(env, disputer);
            let open = escrow.status == EscrowStatus::Active || escrow.status
                == EscrowStatus::MilestonesComplete;
            &&& r is Ok <==> entitled && open
            &&& r is Err ==> after == env
            &&& !entitled ==> r == Err::<(), _>(VaultError::Unauthorized)
            &&& entitled && !open ==> r == Err::<(), _>(VaultError::ProposalNotPending)
            &&& moved(env, after, seq![])
            &&& r is Ok ==> {
                &&& after.payments == (PaymentsModel {
                    escrows: env.payments.escrows.insert(
                        escrow_id,
                        EscrowModel {
                            status: EscrowStatus::Disputed,
                            dispute_reason: reason,
                            ..escrow
                        },
                    ),
                    ..env.payments
                })
                &&& after.release_escrow(caller, escrow_id).0 == after
                &&& after.release_escrow(caller, escrow_id).1 is Err
            }
        }),
{
}

/// An admin resolves a dispute over an escrow. All that is left of it goes to its recipient where
/// it is decided for the recipient, and back to its funder where it is decided for the funder;
/// nobody else is paid, and the escrow is over.
pub proof fn law_resolved_disputes_pay_the_winner(
    env: EnvModel,
    admin: Address,
    escrow_id: u64,
    to_recipient: bool,
)
    requires
        env.payments.escrows.contains_key(escrow_id),
        env.payments.escrows[escrow_id].id == escrow_id,
        0 <= env.payments.escrows[escrow_id].released_amount
            <= env.payments.escrows[escrow_id].total_amount,
    ensures
        ({
            let escrow = env.payments.escrows[escrow_id];
            let (after, r) = env.resolve_escrow_dispute(admin, escrow_id, to_recipient);
            let left = escrow.total_amount - escrow.released_amount;
            &&& r is Ok <==> is_admin(env, admin) && escrow.status == EscrowStatus::Disputed
            &&& r is Err ==> after == env
            &&& !is_admin(env, admin) ==> r == Err::<(), _>(VaultError::Unauthorized)
            &&& is_admin(env, admin) && escrow.status != EscrowStatus::Disputed ==> r == Err::<
                (),
                _,
            >(VaultError::ProposalNotPending)
            &&& r is Ok && left == 0 ==> moved(env, after, seq![])
            &&& r is Ok && left > 0 && to_recipient ==> moved(
                env,
                after,
                seq![
                    Action::Transfer {
                        token: escrow.token,
                        to: escrow.recipient,
                        amount: left as i128,
                    },
                ],
            )
            &&& r is Ok && left > 0 && !to_recipient ==> moved(
                env,
                after,
                seq![
                    Action::Transfer {
                        token: escrow.token,
                        to: escrow.funder,
                        amount: left as i128,
                    },
                ],
            )
            &&& r is Ok ==> after.treasury == env.treasury && after.payments == (PaymentsModel {
                escrows: env.payments.escrows.insert(
                    escrow_id,
                    EscrowModel {
                        released_amount: escrow.total_amount,
                        status: if to_recipient {
                            EscrowStatus::Released
                        } else {
                            EscrowStatus::Refunded
                        },
                        finalized_at: env.ledger.sequence as u64,
                        ..escrow
                    },
                ),
                ..env.payments
            })
        }),
{
}

} // verus!
