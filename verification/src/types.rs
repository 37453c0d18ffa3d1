use vstd::prelude::*;

verus! {

/// An account identifier, opaque to the engine.
///
/// The engine never interprets an address; it only compares addresses for
/// equality (authorization checks, the sender/recipient distinctness rule)
/// and routes fund movements between them.  The host environment maps these
/// identifiers to whatever principal representation it uses.
#[derive(Clone, Copy, Debug, PartialEq, Eq, Structural, Hash)]
pub struct Address(pub u64);

/// Lifecycle state of a stream.
///
/// `Active` is the initial state (entered at creation and at resume),
/// `Paused` blocks withdrawals but not time-based accrual, and
/// `Completed` / `Cancelled` are terminal: no transition leaves them.
#[derive(Clone, Copy, Debug, PartialEq, Eq, Structural)]
pub enum StreamStatus {
    Active,
    Paused,
    Completed,
    Cancelled,
}

/// Failure kinds for every operation of the engine.
///
/// Each operation either succeeds or aborts with one of these, leaving the
/// state exactly as it was; there is no partial commit.
#[derive(Clone, Copy, Debug, PartialEq, Eq, Structural)]
pub enum ContractError {
    /// The operation referenced a stream identifier that was never allocated.
    StreamNotFound,
    /// The stream is not in a state from which the requested transition is
    /// allowed (for example cancel on a terminal stream, resume on a
    /// non-paused stream, withdraw on a paused or completed stream).
    InvalidState,
    /// The operation needs the global configuration, which has not been set.
    NotInitialized,
    /// The configuration was already set; it can be created only once.
    AlreadyInitialized,
    /// The authenticated caller does not control the principal the
    /// operation demands.
    Unauthorized,
    /// `deposit_amount` was zero or negative.
    NonPositiveDeposit,
    /// `rate_per_second` was zero or negative.
    NonPositiveRate,
    /// `start_time` was not strictly before `end_time`.
    InvalidTimeRange,
    /// `cliff_time` was outside `[start_time, end_time]`.
    CliffOutOfRange,
    /// `rate_per_second * (end_time - start_time)` overflowed; distinct from
    /// `InsufficientDeposit` so the two causes stay separately observable.
    StreamableOverflow,
    /// The deposit does not cover `rate_per_second * (end_time - start_time)`.
    InsufficientDeposit,
    /// The sender and the recipient were the same account.
    SenderEqualsRecipient,
    /// Summing the deposits of a batch overflowed.
    BatchDepositOverflow,
}

/// Notification payloads the host publishes after a successful transition.
/// Informational only: no correctness obligation rests on them.
#[derive(Clone, Copy, Debug, PartialEq, Eq, Structural)]
pub enum StreamEvent {
    Paused(u64),
    Resumed(u64),
    Cancelled(u64),
}

/// Namespace of keys under which a durable host store files the engine's
/// state: the global settings, the identifier counter, and one record per
/// stream.  The verified core keeps the same state in memory; the host uses
/// these keys when persisting it.
#[derive(Clone, Copy, Debug, PartialEq, Eq, Structural, Hash)]
pub enum DataKey {
    Config,
    NextStreamId,
    Stream(u64),
}

/// Global configuration: the fungible asset all streams move, and the
/// administrative principal.  Created exactly once; only the admin half can
/// be rotated afterwards.
#[derive(Clone, Copy, Debug, PartialEq, Eq, Structural)]
pub struct Config {
    pub token: Address,
    pub admin: Address,
}

/// One funded vesting schedule.
#[derive(Clone, Copy, Debug, PartialEq, Eq)]
pub struct Stream {
    /// Densely allocated sequence number; equals the stream's index in the
    /// registry.
    pub stream_id: u64,
    pub sender: Address,
    pub recipient: Address,
    /// Total funds escrowed; strictly positive.
    pub deposit_amount: i128,
    /// Linear accrual rate; strictly positive.
    pub rate_per_second: i128,
    pub start_time: u64,
    /// No accrual is visible before this moment, though the rate clock runs
    /// from `start_time`.
    pub cliff_time: u64,
    pub end_time: u64,
    /// Cumulative amount already paid out; never decreases, never exceeds
    /// the deposit.
    pub withdrawn_amount: i128,
    pub status: StreamStatus,
    /// Set exactly when the stream is cancelled; freezes accrual from that
    /// moment on.
    pub cancelled_at: Option<u64>,
}

impl Stream {
    /// The invariants every stored stream satisfies at all times.
    pub open spec fn wf(self) -> bool {
        &&& self.deposit_amount > 0
        &&& self.rate_per_second > 0
        &&& self.start_time < self.end_time
        &&& self.start_time <= self.cliff_time <= self.end_time
        &&& self.deposit_amount >= self.rate_per_second * (self.end_time - self.start_time)
        &&& 0 <= self.withdrawn_amount <= self.deposit_amount
        &&& (self.cancelled_at is Some <==> self.status == StreamStatus::Cancelled)
        &&& self.sender != self.recipient
        &&& (self.status == StreamStatus::Completed ==> self.withdrawn_amount
            == self.deposit_amount)
    }

    /// The timestamp accrual was frozen at, for a cancelled stream.
    pub open spec fn frozen_at(self) -> u64 {
        match self.cancelled_at {
            Some(t) => t,
            None => 0,
        }
    }
}

/// Creation parameters for one element of a batch; the sender funds every
/// element of the batch.
#[derive(Clone, Copy, Debug, PartialEq, Eq)]
pub struct CreateStreamParams {
    pub recipient: Address,
    pub deposit_amount: i128,
    pub rate_per_second: i128,
    pub start_time: u64,
    pub cliff_time: u64,
    pub end_time: u64,
}

} // verus!
