//! Streaming payments.
//!
//! The sender commits an amount, which flows to the recipient second by second while the
//! stream is active.

use vstd::prelude::*;

use crate::env::{Action, Env, EnvModel, Event};
use crate::errors::VaultError;
use crate::math::sat_mul;
use crate::primitives::Address;
use crate::proposals::Outcome;
use crate::storage;
use crate::types::{Role, StreamStatus, StreamingPayment};
use crate::VaultDAO;

verus! {

impl StreamingPayment {
    /// Seconds that passed since the last update while the stream was active, up to its end.
    pub open spec fn elapsed(self, now: u64) -> u64 {
        if self.status == StreamStatus::Active {
            crate::math::clamp_u64(
                crate::math::min_int(now as int, self.end_timestamp as int)
                    - self.last_update_timestamp,
            )
        } else {
            0
        }
    }

    /// Seconds during which the stream was active.
    pub open spec fn active_seconds(self, now: u64) -> int {
        self.accumulated_seconds + self.elapsed(now)
    }

    /// What the recipient has earned, claimed or not: never more than what was committed.
    pub open spec fn earned(self, now: u64) -> int {
        crate::math::min_int(self.rate * self.active_seconds(now), self.total_amount as int)
    }

    /// Whether the stream is one that can have been created: it flows, and no more than what
    /// was committed was claimed.
    pub open spec fn valid(self) -> bool {
        &&& self.rate > 0
        &&& 0 <= self.claimed_amount <= self.total_amount
    }

    /// Whether the active seconds of the stream can be counted.
    pub open spec fn seconds_fit(self, now: u64) -> bool {
        self.active_seconds(now) <= u64::MAX
    }

    /// The stream after it was settled up to a time.
    pub open spec fn settled(self, now: u64) -> StreamingPayment {
        StreamingPayment {
            accumulated_seconds: self.active_seconds(now) as u64,
            last_update_timestamp: now,
            ..self
        }
    }

    /// The stream after a claim.
    pub open spec fn after_claim(self, now: u64) -> StreamingPayment {
        StreamingPayment {
            claimed_amount: self.earned(now) as i128,
            status: if self.earned(now) >= self.total_amount {
                StreamStatus::Completed
            } else {
                self.status
            },
            ..self.settled(now)
        }
    }
}

impl EnvModel {
    /// Whether an address may pause, resume or cancel a stream: its sender or an admin.
    pub open spec fn may_control(self, caller: Address, stream: StreamingPayment) -> bool {
        stream.sender == caller || self.role(caller) == Role::Admin
    }

    /// Why a stream cannot be created, if it cannot.
    pub open spec fn stream_refusal(
        self,
        sender: Address,
        recipient: Address,
        rate: i128,
        total_amount: i128,
        duration_secs: u64,
    ) -> Option<VaultError> {
        if !self.may_propose(sender) {
            Some(VaultError::InsufficientRole)
        } else if rate <= 0 || total_amount <= 0 || duration_secs == 0 {
            Some(VaultError::InvalidAmount)
        } else {
            self.recipient_refusal(recipient)
        }
    }

    /// Whether there is a time at which a new stream, where it is allowed, ends.
    pub open spec fn stream_creation_fits(
        self,
        sender: Address,
        recipient: Address,
        rate: i128,
        total_amount: i128,
        duration_secs: u64,
    ) -> bool {
        &&& self.has_room()
        &&& self.stream_refusal(sender, recipient, rate, total_amount, duration_secs) is None
            ==> self.ledger.timestamp + duration_secs <= u64::MAX
    }

    /// What creating a stream leaves behind.
    pub open spec fn create_stream(
        self,
        sender: Address,
        recipient: Address,
        token: Address,
        rate: i128,
        total_amount: i128,
        duration_secs: u64,
    ) -> Outcome<u64> {
        let id = self.payments.next_stream_id;
        let now = self.ledger.timestamp;
        match self.stream_refusal(sender, recipient, rate, total_amount, duration_secs) {
            Some(error) => (self, Err(error)),
            None => (
                self.bump_next_stream_id().act(
                    Action::TransferToVault { token, from: sender, amount: total_amount },
                ).with_stream(
                    StreamingPayment {
                        id,
                        sender,
                        recipient,
                        token_addr: token,
                        rate,
                        total_amount,
                        claimed_amount: 0,
                        start_timestamp: now,
                        end_timestamp: (now + duration_secs) as u64,
                        last_update_timestamp: now,
                        accumulated_seconds: 0,
                        status: StreamStatus::Active,
                    },
                ).act(Action::ExtendInstanceTtl).publish(
                    Event::StreamCreated {
                        stream_id: id,
                        sender,
                        recipient,
                        token,
                        amount: total_amount,
                        rate,
                    },
                ),
                Ok(id),
            ),
        }
    }

    /// What a recipient can claim of a stream, or the reason for refusal.
    pub open spec fn claimable(self, recipient: Address, stream: StreamingPayment) -> Result<
        i128,
        VaultError,
    > {
        let amount = stream.earned(self.ledger.timestamp) - stream.claimed_amount;
        if stream.recipient != recipient {
            Err(VaultError::Unauthorized)
        } else if stream.status == StreamStatus::Cancelled || amount <= 0 {
            Err(VaultError::InvalidAmount)
        } else {
            Ok(amount as i128)
        }
    }

    /// What claiming from a stream leaves behind, given whether the transfer went through.
    pub open spec fn claim_stream(self, recipient: Address, stream_id: u64, transferred: bool) -> 
        Outcome<i128> {
        match self.stream(stream_id) {
            Err(error) => (self, Err(error)),
            Ok(stream) => match self.claimable(recipient, stream) {
                Err(error) => (self, Err(error)),
                Ok(amount) => {
                    let tried = self.act(
                        Action::TriedTransfer {
                            token: stream.token_addr,
                            to: recipient,
                            amount,
                            done: transferred,
                        },
                    );
                    if !transferred {
                        (tried, Err(VaultError::InsufficientBalance))
                    } else {
                        (
                            tried.with_stream(
                                stream.after_claim(self.ledger.timestamp),
                            ).publish(Event::StreamClaimed { stream_id, recipient, amount }),
                            Ok(amount),
                        )
                    }
                },
            },
        }
    }

    /// The state after a stream changed its status.
    pub open spec fn change_stream(self, stream: StreamingPayment, stream_id: u64, caller: Address) -> 
        EnvModel {
        self.with_stream(stream).publish(
            Event::StreamStatusUpdated {
                stream_id,
                status: stream.status.spec_code(),
                caller,
            },
        )
    }

    /// What pausing a stream leaves behind.
    pub open spec fn pause_stream(self, caller: Address, stream_id: u64) -> Outcome<()> {
        match self.stream(stream_id) {
            Err(error) => (self, Err(error)),
            Ok(stream) => if !self.may_control(caller, stream) {
                (self, Err(VaultError::Unauthorized))
            } else if stream.status != StreamStatus::Active {
                (self, Err(VaultError::ProposalNotPending))
            } else {
                (
                    self.change_stream(
                        StreamingPayment {
                            status: StreamStatus::Paused,
                            ..stream.settled(self.ledger.timestamp)
                        },
                        stream_id,
                        caller,
                    ),
                    Ok(()),
                )
            },
        }
    }

    /// What resuming a stream leaves behind.
    pub open spec fn resume_stream(self, caller: Address, stream_id: u64) -> Outcome<()> {
        match self.stream(stream_id) {
            Err(error) => (self, Err(error)),
            Ok(stream) => if !self.may_control(caller, stream) {
                (self, Err(VaultError::Unauthorized))
            } else if stream.status != StreamStatus::Paused {
                (self, Err(VaultError::ProposalNotPending))
            } else {
                (
                    self.change_stream(
                        StreamingPayment {
                            status: StreamStatus::Active,
                            last_update_timestamp: self.ledger.timestamp,
                            ..stream
                        },
                        stream_id,
                        caller,
                    ),
                    Ok(()),
                )
            },
        }
    }

    /// What a cancelled stream returns to its sender, or the reason for refusal.
    pub open spec fn refundable(self, caller: Address, stream: StreamingPayment) -> Result<
        i128,
        VaultError,
    > {
        if !self.may_control(caller, stream) {
            Err(VaultError::Unauthorized)
        } else if stream.status == StreamStatus::Cancelled {
            Err(VaultError::ProposalAlreadyCancelled)
        } else if stream.status == StreamStatus::Completed {
            Err(VaultError::ProposalAlreadyExecuted)
        } else {
            Ok((stream.total_amount - stream.claimed_amount) as i128)
        }
    }

    /// What cancelling a stream leaves behind, given whether the transfer went through. What
    /// was claimed is kept; the remainder goes back to the sender.
    pub open spec fn cancel_stream(self, caller: Address, stream_id: u64, transferred: bool) -> 
        Outcome<i128> {
        match self.stream(stream_id) {
            Err(error) => (self, Err(error)),
            Ok(stream) => match self.refundable(caller, stream) {
                Err(error) => (self, Err(error)),
                Ok(amount) => {
                    let tried = if amount > 0 {
                        self.act(
                            Action::TriedTransfer {
                                token: stream.token_addr,
                                to: stream.sender,
                                amount,
                                done: transferred,
                            },
                        )
                    } else {
                        self
                    };
                    if amount > 0 && !transferred {
                        (tried, Err(VaultError::InsufficientBalance))
                    } else {
                        (
                            tried.change_stream(
                                StreamingPayment {
                                    status: StreamStatus::Cancelled,
                                    ..stream.settled(self.ledger.timestamp)
                                },
                                stream_id,
                                caller,
                            ),
                            Ok(amount),
                        )
                    }
                },
            },
        }
    }

    /// Whether a stream is valid and can be settled at present.
    pub open spec fn stream_fits(self, stream_id: u64) -> bool {
        self.stream(stream_id) matches Ok(stream) ==> stream.valid() && stream.seconds_fit(
            self.ledger.timestamp,
        )
    }
}

/// A stream never pays more than what was committed: a claim pays what was earned and not yet
/// claimed, and leaves a valid stream.
pub proof fn law_claims_stay_within_the_commitment(stream: StreamingPayment, now: u64)
    requires
        stream.valid(),
        stream.earned(now) >= stream.claimed_amount,
    ensures
        stream.after_claim(now).valid(),
        stream.after_claim(now).claimed_amount <= stream.total_amount,
        stream.after_claim(now).status == StreamStatus::Completed
            <==> stream.after_claim(now).claimed_amount == stream.total_amount || stream.status
            == StreamStatus::Completed,
{
}

/// What was claimed of a stream and what its cancellation returns are together what was
/// committed.
pub proof fn law_cancelled_streams_balance(
    env: EnvModel,
    caller: Address,
    stream: StreamingPayment,
)
    requires
        stream.valid(),
        env.refundable(caller, stream) is Ok,
    ensures
        0 <= env.refundable(caller, stream)->Ok_0,
        stream.claimed_amount + env.refundable(caller, stream)->Ok_0 == stream.total_amount,
{
}

/// While a stream is paused nothing is earned.
pub proof fn law_paused_streams_earn_nothing(stream: StreamingPayment, now: u64, later: u64)
    requires
        stream.status == StreamStatus::Paused,
    ensures
        stream.earned(later) == stream.earned(now),
{
}

/// Seconds that passed since the last update of a stream while it was active.
pub(crate) fn elapsed_seconds(stream: &StreamingPayment, now: u64) -> (r: u64)
    ensures
        r == stream.elapsed(now),
{
    if stream.status == StreamStatus::Active {
        let effective_now: u64 = if now > stream.end_timestamp {
            stream.end_timestamp
        } else {
            now
        };
        effective_now.saturating_sub(stream.last_update_timestamp)
    } else {
        0
    }
}

/// Whether an address may pause, resume or cancel a stream.
fn may_control(env: &Env, caller: &Address, stream: &StreamingPayment) -> (r: bool)
    ensures
        r == env@.may_control(*caller, *stream),
{
    stream.sender == *caller || storage::get_role(env, caller) == Role::Admin
}

/// Stores a stream that changed its status, and publishes the change.
fn change_stream(env: &mut Env, stream: &StreamingPayment, stream_id: u64, caller: Address)
    ensures
        final(env)@ == old(env)@.change_stream(*stream, stream_id, caller),
{
    storage::set_streaming_payment(env, stream);
    env.publish(
        Event::StreamStatusUpdated { stream_id, status: stream.status.code(), caller },
    );
}

impl VaultDAO {
    /// Creates a stream. Treasurers and admins may; the sender commits the whole amount.
    pub fn create_stream(
        env: &mut Env,
        sender: Address,
        recipient: Address,
        token_addr: Address,
        rate: i128,
        total_amount: i128,
        duration_secs: u64,
    ) -> (r: Result<u64, VaultError>)
        requires
            old(env)@.authorized(sender),
            old(env)@.stream_creation_fits(
                sender,
                recipient,
                rate,
                total_amount,
                duration_secs,
            ),
        ensures
            (final(env)@, r) == old(env)@.create_stream(
                sender,
                recipient,
                token_addr,
                rate,
                total_amount,
                duration_secs,
            ),
    {
        let role = storage::get_role(env, &sender);
        if role != Role::Treasurer && role != Role::Admin {
            return Err(VaultError::InsufficientRole);
        }
        if rate <= 0 || total_amount <= 0 || duration_secs == 0 {
            return Err(VaultError::InvalidAmount);
        }
        Self::validate_recipient(env, &recipient)?;
        let id: u64 = storage::increment_stream_id(env);
        let now: u64 = env.ledger.timestamp;
        env.act(
            Action::TransferToVault { token: token_addr, from: sender, amount: total_amount },
        );
        let stream = StreamingPayment {
            id,
            sender,
            recipient,
            token_addr,
            rate,
            total_amount,
            claimed_amount: 0,
            start_timestamp: now,
            end_timestamp: now + duration_secs,
            last_update_timestamp: now,
            accumulated_seconds: 0,
            status: StreamStatus::Active,
        };
        storage::set_streaming_payment(env, &stream);
        storage::extend_instance_ttl(env);
        env.publish(
            Event::StreamCreated {
                stream_id: id,
                sender,
                recipient,
                token: token_addr,
                amount: total_amount,
                rate,
            },
        );
        Ok(id)
    }

    /// What a recipient can claim of a stream.
    pub fn claimable_amount(env: &Env, recipient: &Address, stream: &StreamingPayment) -> (r: Result<
        i128,
        VaultError,
    >)
        requires
            stream.valid(),
            stream.seconds_fit(env@.ledger.timestamp),
        ensures
            r == env@.claimable(*recipient, *stream),
    {
        if stream.recipient != *recipient {
            return Err(VaultError::Unauthorized);
        }
        if stream.status == StreamStatus::Cancelled {
            return Err(VaultError::InvalidAmount);
        }
        let now: u64 = env.ledger.timestamp;
        let seconds: u64 = stream.accumulated_seconds + elapsed_seconds(stream, now);
        assert(stream.rate * seconds >= 0) by (nonlinear_arith)
            requires
                stream.rate > 0,
                seconds >= 0,
        ;
        let gross: i128 = sat_mul(stream.rate, seconds as i128);
        let earned: i128 = if gross > stream.total_amount {
            stream.total_amount
        } else {
            gross
        };
        let claimable: i128 = earned - stream.claimed_amount;
        if claimable <= 0 {
            return Err(VaultError::InvalidAmount);
        }
        Ok(claimable)
    }

    /// Claims what was earned of a stream, given whether the transfer went through. Only its
    /// recipient may.
    pub fn claim_stream(env: &mut Env, recipient: Address, stream_id: u64, transferred: bool) -> (r:
        Result<i128, VaultError>)
        requires
            old(env)@.authorized(recipient),
            old(env)@.stream_fits(stream_id),
        ensures
            (final(env)@, r) == old(env)@.claim_stream(recipient, stream_id, transferred),
    {
        let mut stream = storage::get_streaming_payment(env, stream_id)?;
        let claimable: i128 = Self::claimable_amount(env, &recipient, &stream)?;
        env.act(
            Action::TriedTransfer {
                token: stream.token_addr,
                to: recipient,
                amount: claimable,
                done: transferred,
            },
        );
        if !transferred {
            return Err(VaultError::InsufficientBalance);
        }
        let now: u64 = env.ledger.timestamp;
        stream.accumulated_seconds = stream.accumulated_seconds + elapsed_seconds(&stream, now);
        stream.claimed_amount = stream.claimed_amount + claimable;
        stream.last_update_timestamp = now;
        if stream.claimed_amount >= stream.total_amount {
            stream.status = StreamStatus::Completed;
        }
        storage::set_streaming_payment(env, &stream);
        env.publish(Event::StreamClaimed { stream_id, recipient, amount: claimable });
        Ok(claimable)
    }

    /// Pauses an active stream. Its sender and admins may.
    pub fn pause_stream(env: &mut Env, caller: Address, stream_id: u64) -> (r: Result<
        (),
        VaultError,
    >)
        requires
            old(env)@.authorized(caller),
            old(env)@.stream_fits(stream_id),
        ensures
            (final(env)@, r) == old(env)@.pause_stream(caller, stream_id),
    {
        let mut stream = storage::get_streaming_payment(env, stream_id)?;
        if !may_control(env, &caller, &stream) {
            return Err(VaultError::Unauthorized);
        }
        if stream.status != StreamStatus::Active {
            return Err(VaultError::ProposalNotPending);
        }
        let now: u64 = env.ledger.timestamp;
        stream.accumulated_seconds = stream.accumulated_seconds + elapsed_seconds(&stream, now);
        stream.last_update_timestamp = now;
        stream.status = StreamStatus::Paused;
        change_stream(env, &stream, stream_id, caller);
        Ok(())
    }

    /// Resumes a paused stream. Its sender and admins may.
    pub fn resume_stream(env: &mut Env, caller: Address, stream_id: u64) -> (r: Result<
        (),
        VaultError,
    >)
        requires
            old(env)@.authorized(caller),
        ensures
            (final(env)@, r) == old(env)@.resume_stream(caller, stream_id),
    {
        let mut stream = storage::get_streaming_payment(env, stream_id)?;
        if !may_control(env, &caller, &stream) {
            return Err(VaultError::Unauthorized);
        }
        if stream.status != StreamStatus::Paused {
            return Err(VaultError::ProposalNotPending);
        }
        stream.last_update_timestamp = env.ledger.timestamp;
        stream.status = StreamStatus::Active;
        change_stream(env, &stream, stream_id, caller);
        Ok(())
    }

    /// What a cancelled stream returns to its sender.
    pub fn refundable_amount(env: &Env, caller: &Address, stream: &StreamingPayment) -> (r: Result<
        i128,
        VaultError,
    >)
        requires
            stream.valid(),
        ensures
            r == env@.refundable(*caller, *stream),
    {
        if !may_control(env, caller, stream) {
            return Err(VaultError::Unauthorized);
        }
        if stream.status == StreamStatus::Cancelled {
            return Err(VaultError::ProposalAlreadyCancelled);
        }
        if stream.status == StreamStatus::Completed {
            return Err(VaultError::ProposalAlreadyExecuted);
        }
        Ok(stream.total_amount - stream.claimed_amount)
    }

    /// Cancels a stream, given whether the transfer went through: what was claimed is kept, the
    /// remainder goes back to the sender. Its sender and admins may.
    pub fn cancel_stream(env: &mut Env, caller: Address, stream_id: u64, transferred: bool) -> (r:
        Result<i128, VaultError>)
        requires
            old(env)@.authorized(caller),
            old(env)@.stream_fits(stream_id),
        ensures
            (final(env)@, r) == old(env)@.cancel_stream(caller, stream_id, transferred),
    {
        let mut stream = storage::get_streaming_payment(env, stream_id)?;
        let refund: i128 = Self::refundable_amount(env, &caller, &stream)?;
        if refund > 0 {
            env.act(
                Action::TriedTransfer {
                    token: stream.token_addr,
                    to: stream.sender,
                    amount: refund,
                    done: transferred,
                },
            );
            if !transferred {
                return Err(VaultError::InsufficientBalance);
            }
        }
        let now: u64 = env.ledger.timestamp;
        stream.accumulated_seconds = stream.accumulated_seconds + elapsed_seconds(&stream, now);
        stream.last_update_timestamp = now;
        stream.status = StreamStatus::Cancelled;
        change_stream(env, &stream, stream_id, caller);
        Ok(refund)
    }

    /// The stream with an identifier.
    pub fn get_stream(env: &Env, stream_id: u64) -> (r: Result<StreamingPayment, VaultError>)
        ensures
            r == env@.stream(stream_id),
    {
        storage::get_streaming_payment(env, stream_id)
    }
}

} // verus!
