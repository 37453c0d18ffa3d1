//! The lifecycle state machine.
//!
//! [`FluxoraStream`] holds the whole engine state — the configuration and
//! the registry of streams — as an explicit value.  Each operation is a
//! verified transition: it takes the authenticated caller and the current
//! time as plain values, either commits a fully specified state change or
//! returns an error leaving the state untouched, and hands any owed fund
//! movement back to the host as a [`TransferAction`] to perform after the
//! state is persisted.

use crate::accrual::calculate_accrued_amount;
use crate::accrual::lemma_accrued_monotone;
use crate::accrual::lemma_accrued_within_deposit;
use crate::accrual::spec_accrued;
use crate::transfer::TransferAction;
use crate::types::Address;
use crate::types::Config;
use crate::types::ContractError;
use crate::types::CreateStreamParams;
use crate::types::Stream;
use crate::types::StreamStatus;
use vstd::arithmetic::mul::lemma_mul_nonnegative;
use vstd::prelude::*;

verus! {

/// Result of checking creation parameters, in the order the checks run:
/// positive amounts, a well-ordered time window, an affordable total
/// streamable amount (with its overflow kept distinct), and distinct
/// parties.
pub open spec fn spec_validate_params(
    sender: Address,
    recipient: Address,
    deposit_amount: i128,
    rate_per_second: i128,
    start_time: u64,
    cliff_time: u64,
    end_time: u64,
) -> Result<(), ContractError> {
    if deposit_amount <= 0 {
        Err(ContractError::NonPositiveDeposit)
    } else if rate_per_second <= 0 {
        Err(ContractError::NonPositiveRate)
    } else if start_time >= end_time {
        Err(ContractError::InvalidTimeRange)
    } else if !(start_time <= cliff_time && cliff_time <= end_time) {
        Err(ContractError::CliffOutOfRange)
    } else if rate_per_second * (end_time - start_time) > i128::MAX {
        Err(ContractError::StreamableOverflow)
    } else if deposit_amount < rate_per_second * (end_time - start_time) {
        Err(ContractError::InsufficientDeposit)
    } else if sender == recipient {
        Err(ContractError::SenderEqualsRecipient)
    } else {
        Ok(())
    }
}

/// Result of the first pass over a batch: validate each element in order
/// and accumulate the total deposit with overflow-checked summation.  The
/// first failure — a validation error of element `i`, or the running total
/// overflowing at element `i` — decides the error of the whole batch.
pub open spec fn spec_batch_total(sender: Address, params: Seq<CreateStreamParams>) -> Result<
    int,
    ContractError,
>
    decreases params.len(),
{
    if params.len() == 0 {
        Ok(0)
    } else {
        match spec_batch_total(sender, params.drop_last()) {
            Err(e) => Err(e),
            Ok(total) => {
                let p = params.last();
                match spec_validate_params(
                    sender,
                    p.recipient,
                    p.deposit_amount,
                    p.rate_per_second,
                    p.start_time,
                    p.cliff_time,
                    p.end_time,
                ) {
                    Err(e) => Err(e),
                    Ok(u) => {
                        if total + p.deposit_amount > i128::MAX {
                            Err(ContractError::BatchDepositOverflow)
                        } else {
                            Ok(total + p.deposit_amount)
                        }
                    },
                }
            },
        }
    }
}

/// Once an error shows up in a prefix of the batch, the whole batch
/// resolves to that same error.
proof fn lemma_batch_total_prefix_error(sender: Address, params: Seq<CreateStreamParams>, j: int)
    requires
        0 <= j <= params.len(),
        spec_batch_total(sender, params.take(j)) is Err,
    ensures
        spec_batch_total(sender, params) == spec_batch_total(sender, params.take(j)),
    decreases params.len(),
{
    if j == params.len() {
        assert(params.take(j) =~= params);
    } else {
        assert(params.drop_last().take(j) =~= params.take(j));
        lemma_batch_total_prefix_error(sender, params.drop_last(), j);
    }
}

/// A batch that summed cleanly validated every element; the total is the
/// sum of strictly positive deposits, bounded by what fits.
proof fn lemma_batch_total_ok(sender: Address, params: Seq<CreateStreamParams>, total: int)
    requires
        spec_batch_total(sender, params) == Ok::<int, ContractError>(total),
    ensures
        0 <= total <= i128::MAX,
        params.len() > 0 ==> total > 0,
        forall|i: int|
            0 <= i < params.len() ==> spec_validate_params(
                sender,
                (#[trigger] params[i]).recipient,
                params[i].deposit_amount,
                params[i].rate_per_second,
                params[i].start_time,
                params[i].cliff_time,
                params[i].end_time,
            ) is Ok,
    decreases params.len(),
{
    if params.len() > 0 {
        let prefix = params.drop_last();
        let prefix_total = spec_batch_total(sender, prefix)->Ok_0;
        lemma_batch_total_ok(sender, prefix, prefix_total);
        assert(forall|i: int| 0 <= i < prefix.len() ==> params[i] == prefix[i]);
    }
}

/// The stream a successful creation stores: fresh identifier, nothing
/// withdrawn, active, not cancelled.
pub open spec fn spec_new_stream(
    stream_id: u64,
    sender: Address,
    recipient: Address,
    deposit_amount: i128,
    rate_per_second: i128,
    start_time: u64,
    cliff_time: u64,
    end_time: u64,
) -> Stream {
    Stream {
        stream_id,
        sender,
        recipient,
        deposit_amount,
        rate_per_second,
        start_time,
        cliff_time,
        end_time,
        withdrawn_amount: 0,
        status: StreamStatus::Active,
        cancelled_at: None,
    }
}

/// The accrual a query reports, by status: completed streams answer the
/// whole deposit regardless of time, cancelled streams answer the value
/// frozen at cancellation, and active or paused streams answer the
/// time-based formula (pausing blocks withdrawal, not accrual).
pub open spec fn spec_accrued_for(s: Stream, now: u64) -> int {
    if s.status == StreamStatus::Completed {
        s.deposit_amount as int
    } else if s.status == StreamStatus::Cancelled {
        spec_accrued(s.start_time, s.cliff_time, s.rate_per_second, s.deposit_amount, s.frozen_at())
    } else {
        spec_accrued(s.start_time, s.cliff_time, s.rate_per_second, s.deposit_amount, now)
    }
}

/// The stream after a withdrawal at `now`, and the amount paid out.
///
/// Nothing withdrawable means no change at all.  Otherwise the cumulative
/// withdrawn amount catches up to the accrued amount, and a stream drained
/// of its whole deposit completes — but only from `Active`: a cancelled
/// stream drained of its frozen accrual stays cancelled.
pub open spec fn spec_withdraw_stream(s: Stream, now: u64) -> (Stream, int) {
    let accrued = spec_accrued_for(s, now);
    let withdrawable = accrued - s.withdrawn_amount;
    if withdrawable <= 0 {
        (s, 0)
    } else {
        let updated = Stream {
            withdrawn_amount: accrued as i128,
            status: if accrued == s.deposit_amount && s.status == StreamStatus::Active {
                StreamStatus::Completed
            } else {
                s.status
            },
            ..s
        };
        (updated, withdrawable)
    }
}

/// The stream after a cancellation at `now`, and the refund owed to the
/// sender: the deposit minus what had accrued by `now`.  The accrued but
/// not yet withdrawn part stays escrowed for the recipient.
pub open spec fn spec_cancel_stream(s: Stream, now: u64) -> (Stream, int) {
    let accrued = spec_accrued(s.start_time, s.cliff_time, s.rate_per_second, s.deposit_amount, now);
    let refund = s.deposit_amount - accrued;
    (Stream { status: StreamStatus::Cancelled, cancelled_at: Some(now), ..s }, refund)
}

/// The whole engine state: the global configuration (absent until the
/// one-time initialization) and the registry of streams, where the stream
/// with identifier `i` sits at index `i`.
#[derive(Clone, Debug)]
pub struct FluxoraStream {
    pub config: Option<Config>,
    pub streams: Vec<Stream>,
}

impl FluxoraStream {
    /// The state invariant: every stored stream is well formed, identifiers
    /// are dense and equal to their index, and no stream exists before the
    /// configuration does.
    pub open spec fn wf(self) -> bool {
        &&& forall|i: int| 0 <= i < self.streams@.len() ==> (#[trigger] self.streams@[i]).wf()
        &&& forall|i: int|
            0 <= i < self.streams@.len() ==> (#[trigger] self.streams@[i]).stream_id == i
        &&& (self.streams@.len() > 0 ==> self.config is Some)
    }

    /// A fresh, uninitialized engine: no configuration, no streams.
    pub fn new() -> (r: FluxoraStream)
        ensures
            r.wf(),
            r.config is None,
            r.streams@.len() == 0,
    {
        FluxoraStream { config: None, streams: Vec::new() }
    }

    /// One-time initialization: set the streamed token and the admin.
    /// Fails, changing nothing, if a configuration already exists.
    pub fn init(&mut self, token: Address, admin: Address) -> (r: Result<(), ContractError>)
        requires
            old(self).wf(),
        ensures
            final(self).wf(),
            match r {
                Ok(u) => {
                    &&& old(self).config is None
                    &&& final(self).config == Some(Config { token, admin })
                    &&& final(self).streams@ == old(self).streams@
                },
                Err(e) => {
                    &&& *final(self) == *old(self)
                    &&& old(self).config is Some
                    &&& e == ContractError::AlreadyInitialized
                },
            },
            r is Ok <==> old(self).config is None,
    {
        if self.config.is_some() {
            return Err(ContractError::AlreadyInitialized);
        }
        self.config = Some(Config { token, admin });
        Ok(())
    }

    /// Check creation parameters; no side effects.  Returns the first
    /// failing check's error, in the order `spec_validate_params` states.
    pub fn validate_stream_params(
        sender: Address,
        recipient: Address,
        deposit_amount: i128,
        rate_per_second: i128,
        start_time: u64,
        cliff_time: u64,
        end_time: u64,
    ) -> (r: Result<(), ContractError>)
        ensures
            r == spec_validate_params(
                sender,
                recipient,
                deposit_amount,
                rate_per_second,
                start_time,
                cliff_time,
                end_time,
            ),
    {
        if deposit_amount <= 0 {
            return Err(ContractError::NonPositiveDeposit);
        }
        if rate_per_second <= 0 {
            return Err(ContractError::NonPositiveRate);
        }
        if start_time >= end_time {
            return Err(ContractError::InvalidTimeRange);
        }
        if !(cliff_time >= start_time && cliff_time <= end_time) {
            return Err(ContractError::CliffOutOfRange);
        }
        let duration = (end_time - start_time) as i128;
        proof {
            lemma_mul_nonnegative(rate_per_second as int, duration as int);
        }
        match rate_per_second.checked_mul(duration) {
            None => Err(ContractError::StreamableOverflow),
            Some(total_streamable) => {
                if deposit_amount < total_streamable {
                    Err(ContractError::InsufficientDeposit)
                } else if sender == recipient {
                    Err(ContractError::SenderEqualsRecipient)
                } else {
                    Ok(())
                }
            },
        }
    }

    /// Allocate the next identifier and store a fresh stream under it.
    /// Runs only after validation, so a failed creation never consumes an
    /// identifier.
    fn persist_new_stream(
        &mut self,
        sender: Address,
        recipient: Address,
        deposit_amount: i128,
        rate_per_second: i128,
        start_time: u64,
        cliff_time: u64,
        end_time: u64,
    ) -> (stream_id: u64)
        requires
            old(self).wf(),
            old(self).config is Some,
            spec_validate_params(
                sender,
                recipient,
                deposit_amount,
                rate_per_second,
                start_time,
                cliff_time,
                end_time,
            ) is Ok,
        ensures
            final(self).wf(),
            final(self).config == old(self).config,
            stream_id == old(self).streams@.len(),
            final(self).streams@ == old(self).streams@.push(
                spec_new_stream(
                    stream_id,
                    sender,
                    recipient,
                    deposit_amount,
                    rate_per_second,
                    start_time,
                    cliff_time,
                    end_time,
                ),
            ),
    {
        let stream_id = self.streams.len() as u64;
        let stream = Stream {
            stream_id,
            sender,
            recipient,
            deposit_amount,
            rate_per_second,
            start_time,
            cliff_time,
            end_time,
            withdrawn_amount: 0,
            status: StreamStatus::Active,
            cancelled_at: None,
        };
        self.streams.push(stream);
        stream_id
    }

    /// Create a stream: validate, then require a configuration, then store
    /// the stream under a fresh identifier.  On success the host owes one
    /// escrow transfer of the whole deposit from the sender; a failure has
    /// zero effect.
    pub fn create_stream(
        &mut self,
        sender: Address,
        recipient: Address,
        deposit_amount: i128,
        rate_per_second: i128,
        start_time: u64,
        cliff_time: u64,
        end_time: u64,
    ) -> (r: Result<(u64, TransferAction), ContractError>)
        requires
            old(self).wf(),
        ensures
            final(self).wf(),
            match r {
                Ok(p) => {
                    &&& spec_validate_params(
                        sender,
                        recipient,
                        deposit_amount,
                        rate_per_second,
                        start_time,
                        cliff_time,
                        end_time,
                    ) is Ok
                    &&& old(self).config is Some
                    &&& p.0 == old(self).streams@.len()
                    &&& p.1 == (TransferAction::Escrow { from: sender, amount: deposit_amount })
                    &&& final(self).config == old(self).config
                    &&& final(self).streams@ == old(self).streams@.push(
                        spec_new_stream(
                            p.0,
                            sender,
                            recipient,
                            deposit_amount,
                            rate_per_second,
                            start_time,
                            cliff_time,
                            end_time,
                        ),
                    )
                },
                Err(e) => {
                    &&& *final(self) == *old(self)
                    &&& match spec_validate_params(
                        sender,
                        recipient,
                        deposit_amount,
                        rate_per_second,
                        start_time,
                        cliff_time,
                        end_time,
                    ) {
                        Err(v) => e == v,
                        Ok(u) => old(self).config is None && e == ContractError::NotInitialized,
                    }
                },
            },
            r is Ok <==> (spec_validate_params(
                sender,
                recipient,
                deposit_amount,
                rate_per_second,
                start_time,
                cliff_time,
                end_time,
            ) is Ok && old(self).config is Some),
    {
        match Self::validate_stream_params(
            sender,
            recipient,
            deposit_amount,
            rate_per_second,
            start_time,
            cliff_time,
            end_time,
        ) {
            Err(e) => {
                return Err(e);
            },
            Ok(u) => {},
        }
        if self.config.is_none() {
            return Err(ContractError::NotInitialized);
        }
        let stream_id = self.persist_new_stream(
            sender,
            recipient,
            deposit_amount,
            rate_per_second,
            start_time,
            cliff_time,
            end_time,
        );
        Ok((stream_id, TransferAction::Escrow { from: sender, amount: deposit_amount }))
    }

    /// Create a batch of streams funded by one sender, all or nothing: a
    /// first pass validates every element and sums the deposits with
    /// overflow-checked addition, and any failure aborts the whole batch
    /// with zero effect.  On success every stream is stored under
    /// consecutive fresh identifiers and the host owes a single aggregate
    /// escrow transfer of the summed deposits.
    pub fn create_streams(&mut self, sender: Address, streams: Vec<CreateStreamParams>) -> (r:
        Result<(Vec<u64>, Option<TransferAction>), ContractError>)
        requires
            old(self).wf(),
        ensures
            final(self).wf(),
            match r {
                Ok(p) => {
                    let total = spec_batch_total(sender, streams@)->Ok_0;
                    &&& spec_batch_total(sender, streams@) is Ok
                    &&& (streams@.len() > 0 ==> old(self).config is Some)
                    &&& p.0@.len() == streams@.len()
                    &&& forall|i: int|
                        0 <= i < streams@.len() ==> p.0@[i] == old(self).streams@.len() + i
                    &&& final(self).config == old(self).config
                    &&& final(self).streams@ == old(self).streams@ + Seq::new(
                        streams@.len(),
                        |i: int|
                            spec_new_stream(
                                (old(self).streams@.len() + i) as u64,
                                sender,
                                streams@[i].recipient,
                                streams@[i].deposit_amount,
                                streams@[i].rate_per_second,
                                streams@[i].start_time,
                                streams@[i].cliff_time,
                                streams@[i].end_time,
                            ),
                    )
                    &&& p.1 == (if total > 0 {
                        Some((TransferAction::Escrow { from: sender, amount: total as i128 }))
                    } else {
                        None::<TransferAction>
                    })
                },
                Err(e) => {
                    &&& *final(self) == *old(self)
                    &&& match spec_batch_total(sender, streams@) {
                        Err(be) => e == be,
                        Ok(total) => total > 0 && old(self).config is None && e
                            == ContractError::NotInitialized,
                    }
                },
            },
            r is Ok <==> (spec_batch_total(sender, streams@) is Ok && (spec_batch_total(
                sender,
                streams@,
            )->Ok_0 > 0 ==> old(self).config is Some)),
    {
        let n = streams.len();
        let mut total: i128 = 0;
        let mut k: usize = 0;
        while k < n
            invariant
                k <= n,
                n == streams@.len(),
                0 <= total,
                spec_batch_total(sender, streams@.take(k as int)) == Ok::<int, ContractError>(
                    total as int,
                ),
                *self == *old(self),
                old(self).wf(),
            decreases n - k,
        {
            let p = streams[k];
            proof {
                assert(streams@.take(k as int + 1).drop_last() =~= streams@.take(k as int));
                assert(streams@.take(k as int + 1).last() == streams@[k as int]);
            }
            match Self::validate_stream_params(
                sender,
                p.recipient,
                p.deposit_amount,
                p.rate_per_second,
                p.start_time,
                p.cliff_time,
                p.end_time,
            ) {
                Err(e) => {
                    proof {
                        lemma_batch_total_prefix_error(sender, streams@, k as int + 1);
                    }
                    return Err(e);
                },
                Ok(u) => {},
            }
            match total.checked_add(p.deposit_amount) {
                None => {
                    proof {
                        lemma_batch_total_prefix_error(sender, streams@, k as int + 1);
                    }
                    return Err(ContractError::BatchDepositOverflow);
                },
                Some(t) => {
                    total = t;
                },
            }
            k += 1;
        }
        proof {
            assert(streams@.take(n as int) =~= streams@);
            lemma_batch_total_ok(sender, streams@, total as int);
        }
        if total > 0 {
            if self.config.is_none() {
                return Err(ContractError::NotInitialized);
            }
        }
        let ghost pre = self.streams@;
        let ghost target = Seq::new(
            streams@.len(),
            |i: int|
                spec_new_stream(
                    (pre.len() + i) as u64,
                    sender,
                    streams@[i].recipient,
                    streams@[i].deposit_amount,
                    streams@[i].rate_per_second,
                    streams@[i].start_time,
                    streams@[i].cliff_time,
                    streams@[i].end_time,
                ),
        );
        let mut ids: Vec<u64> = Vec::new();
        let mut j: usize = 0;
        while j < n
            invariant
                j <= n,
                n == streams@.len(),
                self.wf(),
                self.config == old(self).config,
                n > 0 ==> self.config is Some,
                ids@.len() == j,
                forall|i: int| 0 <= i < j ==> ids@[i] == pre.len() + i,
                self.streams@ == pre + target.take(j as int),
                pre == old(self).streams@,
                target == Seq::new(
                    streams@.len(),
                    |i: int|
                        spec_new_stream(
                            (pre.len() + i) as u64,
                            sender,
                            streams@[i].recipient,
                            streams@[i].deposit_amount,
                            streams@[i].rate_per_second,
                            streams@[i].start_time,
                            streams@[i].cliff_time,
                            streams@[i].end_time,
                        ),
                ),
                forall|i: int|
                    0 <= i < n ==> spec_validate_params(
                        sender,
                        (#[trigger] streams@[i]).recipient,
                        streams@[i].deposit_amount,
                        streams@[i].rate_per_second,
                        streams@[i].start_time,
                        streams@[i].cliff_time,
                        streams@[i].end_time,
                    ) is Ok,
            decreases n - j,
        {
            let p = streams[j];
            let id = self.persist_new_stream(
                sender,
                p.recipient,
                p.deposit_amount,
                p.rate_per_second,
                p.start_time,
                p.cliff_time,
                p.end_time,
            );
            ids.push(id);
            proof {
                assert(self.streams@ =~= pre + target.take(j as int + 1));
            }
            j += 1;
        }
        proof {
            assert(target.take(n as int) =~= target);
        }
        if total > 0 {
            Ok((ids, Some(TransferAction::Escrow { from: sender, amount: total })))
        } else {
            Ok((ids, None))
        }
    }

    /// The global configuration, once set.
    pub fn get_config(&self) -> (r: Result<Config, ContractError>)
        ensures
            match r {
                Ok(c) => self.config == Some(c),
                Err(e) => self.config is None && e == ContractError::NotInitialized,
            },
    {
        match self.config {
            Some(c) => Ok(c),
            None => Err(ContractError::NotInitialized),
        }
    }

    /// How many streams have ever been created; also the next identifier.
    pub fn get_stream_count(&self) -> (r: u64)
        ensures
            r == self.streams@.len(),
    {
        self.streams.len() as u64
    }

    /// The stored state of one stream.
    pub fn get_stream_state(&self, stream_id: u64) -> (r: Result<Stream, ContractError>)
        ensures
            match r {
                Ok(s) => stream_id < self.streams@.len() && s == self.streams@[stream_id as int],
                Err(e) => stream_id >= self.streams@.len() && e == ContractError::StreamNotFound,
            },
    {
        match self.stream_index(stream_id) {
            Ok(i) => Ok(self.streams[i]),
            Err(e) => Err(e),
        }
    }

    /// The total amount accrued to the recipient of one stream, read-only.
    pub fn calculate_accrued(&self, stream_id: u64, now: u64) -> (r: Result<i128, ContractError>)
        requires
            self.wf(),
        ensures
            match r {
                Ok(a) => {
                    &&& stream_id < self.streams@.len()
                    &&& a == spec_accrued_for(self.streams@[stream_id as int], now)
                    &&& 0 <= a <= self.streams@[stream_id as int].deposit_amount
                },
                Err(e) => stream_id >= self.streams@.len() && e == ContractError::StreamNotFound,
            },
    {
        let i = match self.stream_index(stream_id) {
            Ok(i) => i,
            Err(e) => {
                return Err(e);
            },
        };
        let s = self.streams[i];
        Ok(Self::accrued_for_stream(&s, now))
    }

    /// Accrual of one well-formed stream at `now`, by status.
    fn accrued_for_stream(s: &Stream, now: u64) -> (r: i128)
        requires
            s.wf(),
        ensures
            r == spec_accrued_for(*s, now),
            0 <= r <= s.deposit_amount,
    {
        if s.status == StreamStatus::Completed {
            return s.deposit_amount;
        }
        let at = if s.status == StreamStatus::Cancelled {
            match s.cancelled_at {
                Some(t) => t,
                None => 0,
            }
        } else {
            now
        };
        calculate_accrued_amount(
            s.start_time,
            s.cliff_time,
            s.end_time,
            s.rate_per_second,
            s.deposit_amount,
            at,
        )
    }

    /// Pause an active stream.  The sender alone may pause; accrual keeps
    /// advancing, only withdrawal is blocked.
    pub fn pause_stream(&mut self, caller: Address, stream_id: u64) -> (r: Result<
        (),
        ContractError,
    >)
        requires
            old(self).wf(),
        ensures
            final(self).wf(),
            final(self).config == old(self).config,
            match r {
                Ok(u) => {
                    &&& stream_id < old(self).streams@.len()
                    &&& caller == old(self).streams@[stream_id as int].sender
                    &&& old(self).streams@[stream_id as int].status == StreamStatus::Active
                    &&& final(self).streams@ == old(self).streams@.update(
                        stream_id as int,
                        (Stream {
                            status: StreamStatus::Paused,
                            ..old(self).streams@[stream_id as int]
                        }),
                    )
                },
                Err(e) => {
                    &&& *final(self) == *old(self)
                    &&& e == (if stream_id >= old(self).streams@.len() {
                        ContractError::StreamNotFound
                    } else if caller != old(self).streams@[stream_id as int].sender {
                        ContractError::Unauthorized
                    } else {
                        ContractError::InvalidState
                    })
                },
            },
            r is Ok <==> (stream_id < old(self).streams@.len() && caller == old(
                self,
            ).streams@[stream_id as int].sender && old(self).streams@[stream_id as int].status
                == StreamStatus::Active),
    {
        let i = match self.stream_index(stream_id) {
            Ok(i) => i,
            Err(e) => {
                return Err(e);
            },
        };
        let s = self.streams[i];
        if caller != s.sender {
            return Err(ContractError::Unauthorized);
        }
        if s.status != StreamStatus::Active {
            return Err(ContractError::InvalidState);
        }
        let mut updated = s;
        updated.status = StreamStatus::Paused;
        self.streams[i] = updated;
        Ok(())
    }

    /// Resume a paused stream.  The sender alone may resume; terminal
    /// streams cannot be resumed.
    pub fn resume_stream(&mut self, caller: Address, stream_id: u64) -> (r: Result<
        (),
        ContractError,
    >)
        requires
            old(self).wf(),
        ensures
            final(self).wf(),
            final(self).config == old(self).config,
            match r {
                Ok(u) => {
                    &&& stream_id < old(self).streams@.len()
                    &&& caller == old(self).streams@[stream_id as int].sender
                    &&& old(self).streams@[stream_id as int].status == StreamStatus::Paused
                    &&& final(self).streams@ == old(self).streams@.update(
                        stream_id as int,
                        (Stream {
                            status: StreamStatus::Active,
                            ..old(self).streams@[stream_id as int]
                        }),
                    )
                },
                Err(e) => {
                    &&& *final(self) == *old(self)
                    &&& e == (if stream_id >= old(self).streams@.len() {
                        ContractError::StreamNotFound
                    } else if caller != old(self).streams@[stream_id as int].sender {
                        ContractError::Unauthorized
                    } else {
                        ContractError::InvalidState
                    })
                },
            },
            r is Ok <==> (stream_id < old(self).streams@.len() && caller == old(
                self,
            ).streams@[stream_id as int].sender && old(self).streams@[stream_id as int].status
                == StreamStatus::Paused),
    {
        let i = match self.stream_index(stream_id) {
            Ok(i) => i,
            Err(e) => {
                return Err(e);
            },
        };
        let s = self.streams[i];
        if caller != s.sender {
            return Err(ContractError::Unauthorized);
        }
        if s.status != StreamStatus::Paused {
            return Err(ContractError::InvalidState);
        }
        let mut updated = s;
        updated.status = StreamStatus::Active;
        self.streams[i] = updated;
        Ok(())
    }

    /// Cancel an active or paused stream at `now`: freeze accrual, refund
    /// the sender the unstreamed part, keep the accrued part escrowed for
    /// the recipient.  The sender alone may cancel through this entry
    /// point.
    pub fn cancel_stream(&mut self, caller: Address, stream_id: u64, now: u64) -> (r: Result<
        Option<TransferAction>,
        ContractError,
    >)
        requires
            old(self).wf(),
        ensures
            final(self).wf(),
            final(self).config == old(self).config,
            match r {
                Ok(act) => {
                    let s = old(self).streams@[stream_id as int];
                    &&& stream_id < old(self).streams@.len()
                    &&& caller == s.sender
                    &&& (s.status == StreamStatus::Active || s.status == StreamStatus::Paused)
                    &&& final(self).streams@ == old(self).streams@.update(
                        stream_id as int,
                        spec_cancel_stream(s, now).0,
                    )
                    &&& act == (if spec_cancel_stream(s, now).1 > 0 {
                        Some(
                            (TransferAction::Payout {
                                to: s.sender,
                                amount: spec_cancel_stream(s, now).1 as i128,
                            }),
                        )
                    } else {
                        None::<TransferAction>
                    })
                },
                Err(e) => {
                    &&& *final(self) == *old(self)
                    &&& e == (if stream_id >= old(self).streams@.len() {
                        ContractError::StreamNotFound
                    } else if caller != old(self).streams@[stream_id as int].sender {
                        ContractError::Unauthorized
                    } else {
                        ContractError::InvalidState
                    })
                },
            },
            r is Ok <==> (stream_id < old(self).streams@.len() && caller == old(
                self,
            ).streams@[stream_id as int].sender && (old(self).streams@[stream_id as int].status
                == StreamStatus::Active || old(self).streams@[stream_id as int].status
                == StreamStatus::Paused)),
    {
        let i = match self.stream_index(stream_id) {
            Ok(i) => i,
            Err(e) => {
                return Err(e);
            },
        };
        let s = self.streams[i];
        if caller != s.sender {
            return Err(ContractError::Unauthorized);
        }
        if !(s.status == StreamStatus::Active || s.status == StreamStatus::Paused) {
            return Err(ContractError::InvalidState);
        }
        Ok(self.apply_cancel(i, now))
    }

    /// Withdraw everything accrued but not yet paid out, at `now`.  The
    /// recipient alone may withdraw, from an active or a cancelled stream.
    /// When nothing is withdrawable the call returns zero and changes
    /// nothing, so polling is free of side effects.  A stream drained of
    /// its whole deposit completes; a cancelled stream stays cancelled.
    pub fn withdraw(&mut self, caller: Address, stream_id: u64, now: u64) -> (r: Result<
        (i128, Option<TransferAction>),
        ContractError,
    >)
        requires
            old(self).wf(),
        ensures
            final(self).wf(),
            final(self).config == old(self).config,
            match r {
                Ok(p) => {
                    let s = old(self).streams@[stream_id as int];
                    &&& stream_id < old(self).streams@.len()
                    &&& caller == s.recipient
                    &&& (s.status == StreamStatus::Active || s.status == StreamStatus::Cancelled)
                    &&& p.0 == spec_withdraw_stream(s, now).1
                    &&& final(self).streams@ == old(self).streams@.update(
                        stream_id as int,
                        spec_withdraw_stream(s, now).0,
                    )
                    &&& p.1 == (if p.0 > 0 {
                        Some((TransferAction::Payout { to: s.recipient, amount: p.0 }))
                    } else {
                        None::<TransferAction>
                    })
                },
                Err(e) => {
                    &&& *final(self) == *old(self)
                    &&& e == (if stream_id >= old(self).streams@.len() {
                        ContractError::StreamNotFound
                    } else if caller != old(self).streams@[stream_id as int].recipient {
                        ContractError::Unauthorized
                    } else {
                        ContractError::InvalidState
                    })
                },
            },
            r is Ok <==> (stream_id < old(self).streams@.len() && caller == old(
                self,
            ).streams@[stream_id as int].recipient && (old(self).streams@[stream_id as int].status
                == StreamStatus::Active || old(self).streams@[stream_id as int].status
                == StreamStatus::Cancelled)),
    {
        let i = match self.stream_index(stream_id) {
            Ok(i) => i,
            Err(e) => {
                return Err(e);
            },
        };
        let s = self.streams[i];
        if caller != s.recipient {
            return Err(ContractError::Unauthorized);
        }
        if s.status == StreamStatus::Completed || s.status == StreamStatus::Paused {
            return Err(ContractError::InvalidState);
        }
        let accrued = Self::accrued_for_stream(&s, now);
        let withdrawable = accrued - s.withdrawn_amount;
        if withdrawable <= 0 {
            proof {
                assert(old(self).streams@.update(
                    stream_id as int,
                    spec_withdraw_stream(s, now).0,
                ) =~= old(self).streams@);
            }
            return Ok((0, None));
        }
        let mut updated = s;
        updated.withdrawn_amount = accrued;
        if updated.withdrawn_amount == updated.deposit_amount && updated.status
            == StreamStatus::Active {
            updated.status = StreamStatus::Completed;
        }
        self.streams[i] = updated;
        Ok((withdrawable, Some(TransferAction::Payout { to: s.recipient, amount: withdrawable })))
    }

    /// Rotate the administrative principal.  Only the current admin may do
    /// so; the token half of the configuration never changes.
    pub fn set_admin(&mut self, caller: Address, new_admin: Address) -> (r: Result<
        (),
        ContractError,
    >)
        requires
            old(self).wf(),
        ensures
            final(self).wf(),
            final(self).streams@ == old(self).streams@,
            match r {
                Ok(u) => {
                    &&& old(self).config is Some
                    &&& caller == (old(self).config->0).admin
                    &&& final(self).config == Some(
                        (Config { token: (old(self).config->0).token, admin: new_admin }),
                    )
                },
                Err(e) => {
                    &&& *final(self) == *old(self)
                    &&& e == (if old(self).config is None {
                        ContractError::NotInitialized
                    } else {
                        ContractError::Unauthorized
                    })
                },
            },
            r is Ok <==> (old(self).config is Some && caller == (old(self).config->0).admin),
    {
        let c = match self.config {
            Some(c) => c,
            None => {
                return Err(ContractError::NotInitialized);
            },
        };
        if caller != c.admin {
            return Err(ContractError::Unauthorized);
        }
        self.config = Some(Config { token: c.token, admin: new_admin });
        Ok(())
    }

    /// Cancel any stream, authorized by the admin instead of the sender;
    /// the refund still goes to the stream's sender.
    pub fn cancel_stream_as_admin(&mut self, caller: Address, stream_id: u64, now: u64) -> (r:
        Result<Option<TransferAction>, ContractError>)
        requires
            old(self).wf(),
        ensures
            final(self).wf(),
            final(self).config == old(self).config,
            match r {
                Ok(act) => {
                    let s = old(self).streams@[stream_id as int];
                    &&& old(self).config is Some
                    &&& caller == (old(self).config->0).admin
                    &&& stream_id < old(self).streams@.len()
                    &&& (s.status == StreamStatus::Active || s.status == StreamStatus::Paused)
                    &&& final(self).streams@ == old(self).streams@.update(
                        stream_id as int,
                        spec_cancel_stream(s, now).0,
                    )
                    &&& act == (if spec_cancel_stream(s, now).1 > 0 {
                        Some(
                            (TransferAction::Payout {
                                to: s.sender,
                                amount: spec_cancel_stream(s, now).1 as i128,
                            }),
                        )
                    } else {
                        None::<TransferAction>
                    })
                },
                Err(e) => {
                    &&& *final(self) == *old(self)
                    &&& e == (if old(self).config is None {
                        ContractError::NotInitialized
                    } else if caller != (old(self).config->0).admin {
                        ContractError::Unauthorized
                    } else if stream_id >= old(self).streams@.len() {
                        ContractError::StreamNotFound
                    } else {
                        ContractError::InvalidState
                    })
                },
            },
            r is Ok <==> (old(self).config is Some && caller == (old(self).config->0).admin
                && stream_id < old(self).streams@.len() && (old(
                self,
            ).streams@[stream_id as int].status == StreamStatus::Active || old(
                self,
            ).streams@[stream_id as int].status == StreamStatus::Paused)),
    {
        let c = match self.config {
            Some(c) => c,
            None => {
                return Err(ContractError::NotInitialized);
            },
        };
        if caller != c.admin {
            return Err(ContractError::Unauthorized);
        }
        let i = match self.stream_index(stream_id) {
            Ok(i) => i,
            Err(e) => {
                return Err(e);
            },
        };
        let s = self.streams[i];
        if !(s.status == StreamStatus::Active || s.status == StreamStatus::Paused) {
            return Err(ContractError::InvalidState);
        }
        Ok(self.apply_cancel(i, now))
    }

    /// Pause any active stream, authorized by the admin instead of the
    /// sender.
    pub fn pause_stream_as_admin(&mut self, caller: Address, stream_id: u64) -> (r: Result<
        (),
        ContractError,
    >)
        requires
            old(self).wf(),
        ensures
            final(self).wf(),
            final(self).config == old(self).config,
            match r {
                Ok(u) => {
                    &&& old(self).config is Some
                    &&& caller == (old(self).config->0).admin
                    &&& stream_id < old(self).streams@.len()
                    &&& old(self).streams@[stream_id as int].status == StreamStatus::Active
                    &&& final(self).streams@ == old(self).streams@.update(
                        stream_id as int,
                        (Stream {
                            status: StreamStatus::Paused,
                            ..old(self).streams@[stream_id as int]
                        }),
                    )
                },
                Err(e) => {
                    &&& *final(self) == *old(self)
                    &&& e == (if old(self).config is None {
                        ContractError::NotInitialized
                    } else if caller != (old(self).config->0).admin {
                        ContractError::Unauthorized
                    } else if stream_id >= old(self).streams@.len() {
                        ContractError::StreamNotFound
                    } else {
                        ContractError::InvalidState
                    })
                },
            },
            r is Ok <==> (old(self).config is Some && caller == (old(self).config->0).admin
                && stream_id < old(self).streams@.len() && old(
                self,
            ).streams@[stream_id as int].status == StreamStatus::Active),
    {
        let c = match self.config {
            Some(c) => c,
            None => {
                return Err(ContractError::NotInitialized);
            },
        };
        if caller != c.admin {
            return Err(ContractError::Unauthorized);
        }
        let i = match self.stream_index(stream_id) {
            Ok(i) => i,
            Err(e) => {
                return Err(e);
            },
        };
        let s = self.streams[i];
        if s.status != StreamStatus::Active {
            return Err(ContractError::InvalidState);
        }
        let mut updated = s;
        updated.status = StreamStatus::Paused;
        self.streams[i] = updated;
        Ok(())
    }

    /// Resume any paused stream, authorized by the admin instead of the
    /// sender.
    pub fn resume_stream_as_admin(&mut self, caller: Address, stream_id: u64) -> (r: Result<
        (),
        ContractError,
    >)
        requires
            old(self).wf(),
        ensures
            final(self).wf(),
            final(self).config == old(self).config,
            match r {
                Ok(u) => {
                    &&& old(self).config is Some
                    &&& caller == (old(self).config->0).admin
                    &&& stream_id < old(self).streams@.len()
                    &&& old(self).streams@[stream_id as int].status == StreamStatus::Paused
                    &&& final(self).streams@ == old(self).streams@.update(
                        stream_id as int,
                        (Stream {
                            status: StreamStatus::Active,
                            ..old(self).streams@[stream_id as int]
                        }),
                    )
                },
                Err(e) => {
                    &&& *final(self) == *old(self)
                    &&& e == (if old(self).config is None {
                        ContractError::NotInitialized
                    } else if caller != (old(self).config->0).admin {
                        ContractError::Unauthorized
                    } else if stream_id >= old(self).streams@.len() {
                        ContractError::StreamNotFound
                    } else {
                        ContractError::InvalidState
                    })
                },
            },
            r is Ok <==> (old(self).config is Some && caller == (old(self).config->0).admin
                && stream_id < old(self).streams@.len() && old(
                self,
            ).streams@[stream_id as int].status == StreamStatus::Paused),
    {
        let c = match self.config {
            Some(c) => c,
            None => {
                return Err(ContractError::NotInitialized);
            },
        };
        if caller != c.admin {
            return Err(ContractError::Unauthorized);
        }
        let i = match self.stream_index(stream_id) {
            Ok(i) => i,
            Err(e) => {
                return Err(e);
            },
        };
        let s = self.streams[i];
        if s.status != StreamStatus::Paused {
            return Err(ContractError::InvalidState);
        }
        let mut updated = s;
        updated.status = StreamStatus::Active;
        self.streams[i] = updated;
        Ok(())
    }

    /// The shared cancellation step, after authorization and the state
    /// guard: freeze the stream and compute the refund.
    fn apply_cancel(&mut self, i: usize, now: u64) -> (r: Option<TransferAction>)
        requires
            old(self).wf(),
            i < old(self).streams@.len(),
            old(self).streams@[i as int].status == StreamStatus::Active || old(
                self,
            ).streams@[i as int].status == StreamStatus::Paused,
        ensures
            final(self).wf(),
            final(self).config == old(self).config,
            final(self).streams@ == old(self).streams@.update(
                i as int,
                spec_cancel_stream(old(self).streams@[i as int], now).0,
            ),
            r == (if spec_cancel_stream(old(self).streams@[i as int], now).1 > 0 {
                Some(
                    (TransferAction::Payout {
                        to: old(self).streams@[i as int].sender,
                        amount: spec_cancel_stream(old(self).streams@[i as int], now).1 as i128,
                    }),
                )
            } else {
                None::<TransferAction>
            }),
    {
        let s = self.streams[i];
        let accrued = calculate_accrued_amount(
            s.start_time,
            s.cliff_time,
            s.end_time,
            s.rate_per_second,
            s.deposit_amount,
            now,
        );
        let refund = s.deposit_amount - accrued;
        let mut updated = s;
        updated.status = StreamStatus::Cancelled;
        updated.cancelled_at = Some(now);
        self.streams[i] = updated;
        if refund > 0 {
            Some(TransferAction::Payout { to: s.sender, amount: refund })
        } else {
            None
        }
    }

    /// Runtime check of the state invariant, for a host that rebuilds the
    /// state from storage it does not fully trust: it returns exactly
    /// whether `wf` holds, so a caller can refuse a corrupted state before
    /// invoking the operations that rely on it.
    pub fn check_invariants(&self) -> (r: bool)
        ensures
            r == self.wf(),
    {
        if self.streams.len() > 0 && self.config.is_none() {
            return false;
        }
        let mut k: usize = 0;
        while k < self.streams.len()
            invariant
                k <= self.streams@.len(),
                self.streams@.len() > 0 ==> self.config is Some,
                forall|i: int|
                    0 <= i < k ==> (#[trigger] self.streams@[i]).wf() && self.streams@[i].stream_id
                        == i,
            decreases self.streams@.len() - k,
        {
            let s = &self.streams[k];
            if !Self::stream_ok(s) || s.stream_id != k as u64 {
                return false;
            }
            k += 1;
        }
        true
    }

    /// Whether one stream record satisfies every stream invariant.
    fn stream_ok(s: &Stream) -> (r: bool)
        ensures
            r == s.wf(),
    {
        if s.deposit_amount <= 0 || s.rate_per_second <= 0 {
            return false;
        }
        if s.start_time >= s.end_time {
            return false;
        }
        if !(s.start_time <= s.cliff_time && s.cliff_time <= s.end_time) {
            return false;
        }
        let duration = (s.end_time - s.start_time) as i128;
        proof {
            lemma_mul_nonnegative(s.rate_per_second as int, duration as int);
        }
        match s.rate_per_second.checked_mul(duration) {
            None => {
                return false;
            },
            Some(total_streamable) => {
                if s.deposit_amount < total_streamable {
                    return false;
                }
            },
        }
        if s.withdrawn_amount < 0 || s.withdrawn_amount > s.deposit_amount {
            return false;
        }
        if s.cancelled_at.is_some() != (s.status == StreamStatus::Cancelled) {
            return false;
        }
        if s.sender == s.recipient {
            return false;
        }
        if s.status == StreamStatus::Completed && s.withdrawn_amount != s.deposit_amount {
            return false;
        }
        true
    }

    /// Index of a stream in the registry, or `StreamNotFound`.
    fn stream_index(&self, stream_id: u64) -> (r: Result<usize, ContractError>)
        ensures
            match r {
                Ok(i) => stream_id < self.streams@.len() && i == stream_id as int,
                Err(e) => stream_id >= self.streams@.len() && e == ContractError::StreamNotFound,
            },
    {
        if stream_id < self.streams.len() as u64 {
            Ok(stream_id as usize)
        } else {
            Err(ContractError::StreamNotFound)
        }
    }
}

/// For every well-formed stream and every query time, the reported accrual
/// lies between zero and the deposit, whatever the status.
pub proof fn lemma_accrued_for_within_deposit(s: Stream, now: u64)
    requires
        s.wf(),
    ensures
        0 <= spec_accrued_for(s, now) <= s.deposit_amount,
{
    if s.status == StreamStatus::Completed {
    } else if s.status == StreamStatus::Cancelled {
        lemma_accrued_within_deposit(
            s.start_time,
            s.cliff_time,
            s.rate_per_second,
            s.deposit_amount,
            s.frozen_at(),
        );
    } else {
        lemma_accrued_within_deposit(
            s.start_time,
            s.cliff_time,
            s.rate_per_second,
            s.deposit_amount,
            now,
        );
    }
}

/// For every well-formed stream the reported accrual never decreases as
/// the query time advances, whatever the status: terminal streams answer a
/// constant, and for the others the time-based formula is monotone.
pub proof fn lemma_accrued_for_monotone(s: Stream, t1: u64, t2: u64)
    requires
        s.wf(),
        t1 <= t2,
    ensures
        spec_accrued_for(s, t1) <= spec_accrued_for(s, t2),
{
    if s.status != StreamStatus::Completed && s.status != StreamStatus::Cancelled {
        lemma_accrued_monotone(
            s.start_time,
            s.cliff_time,
            s.rate_per_second,
            s.deposit_amount,
            t1,
            t2,
        );
    }
}

/// A withdrawal never decreases the cumulative withdrawn amount, and what
/// it pays out is exactly the increase.
pub proof fn lemma_withdraw_monotone(s: Stream, now: u64)
    requires
        s.wf(),
    ensures
        spec_withdraw_stream(s, now).0.withdrawn_amount >= s.withdrawn_amount,
        spec_withdraw_stream(s, now).1 == spec_withdraw_stream(s, now).0.withdrawn_amount
            - s.withdrawn_amount,
{
}

/// Once a stream is cancelled its reported accrual is frozen: every query
/// time yields the same value, the accrual at the moment of cancellation.
pub proof fn lemma_cancelled_accrual_frozen(s: Stream, t1: u64, t2: u64)
    requires
        s.status == StreamStatus::Cancelled,
    ensures
        spec_accrued_for(s, t1) == spec_accrued_for(s, t2),
{
}

/// Once a stream is completed its reported accrual is the whole deposit,
/// regardless of query time.
pub proof fn lemma_completed_accrual_deterministic(s: Stream, now: u64)
    requires
        s.status == StreamStatus::Completed,
    ensures
        spec_accrued_for(s, now) == s.deposit_amount,
{
}

/// Withdrawing twice at the same timestamp pays out nothing the second
/// time and leaves the stream exactly as the first withdrawal left it.
/// The one excluded case is a first withdrawal that completes the stream,
/// after which a second withdrawal is rejected rather than answered with
/// zero.
pub proof fn lemma_withdraw_idempotent_at_zero(s: Stream, now: u64)
    requires
        s.wf(),
        s.status == StreamStatus::Active || s.status == StreamStatus::Cancelled,
        spec_withdraw_stream(s, now).0.status != StreamStatus::Completed,
    ensures
        spec_withdraw_stream(spec_withdraw_stream(s, now).0, now).1 == 0,
        spec_withdraw_stream(spec_withdraw_stream(s, now).0, now).0 == spec_withdraw_stream(
            s,
            now,
        ).0,
{
    lemma_accrued_for_within_deposit(s, now);
}

/// Cancellation splits the deposit exactly: the refund owed to the sender
/// plus the accrual frozen for the recipient equals the whole deposit, and
/// the frozen accrual is what any later query reports.
pub proof fn lemma_cancel_exact_split(s: Stream, now: u64, later: u64)
    requires
        s.wf(),
        s.status == StreamStatus::Active || s.status == StreamStatus::Paused,
    ensures
        spec_cancel_stream(s, now).1 + spec_accrued_for(spec_cancel_stream(s, now).0, later)
            == s.deposit_amount,
        0 <= spec_cancel_stream(s, now).1 <= s.deposit_amount,
{
    lemma_accrued_within_deposit(
        s.start_time,
        s.cliff_time,
        s.rate_per_second,
        s.deposit_amount,
        now,
    );
}

/// Identifiers are dense: in a well-formed registry the streams carry
/// exactly the identifiers `0, 1, …, len-1`, each equal to its index.
/// Together with the creation contract — a successful creation returns
/// `len` and appends, a failed one changes nothing — this says N
/// successful creations yield exactly the identifiers `0` through `N-1`
/// and a failed creation consumes none.
pub proof fn lemma_stream_ids_dense(st: FluxoraStream)
    requires
        st.wf(),
    ensures
        forall|i: int| 0 <= i < st.streams@.len() ==> (#[trigger] st.streams@[i]).stream_id == i,
{
}

} // verus!
