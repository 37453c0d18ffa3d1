//! Verified core of a linear token-streaming (continuous vesting) engine.
//!
//! A sender escrows a deposit once; the recipient accrues the right to
//! withdraw it continuously at a fixed rate, optionally gated by a cliff.
//! The library holds the whole contract state in an explicit value
//! ([`FluxoraStream`]) and exposes every operation as a verified state
//! transition.  Everything the engine needs from its environment — durable
//! storage, authorization, fund transfers, the clock, event publishing — is
//! handed in as plain values (the authenticated caller, the current time) or
//! handed back as data (a [`TransferAction`] the host must perform), so the
//! numerical and lifecycle logic is verified end to end.

mod accrual;
mod lifecycle;
mod transfer;
mod types;

pub use accrual::calculate_accrued_amount;
pub use accrual::lemma_accrued_monotone;
pub use accrual::lemma_accrued_within_deposit;
pub use accrual::spec_accrued;
pub use lifecycle::lemma_accrued_for_monotone;
pub use lifecycle::lemma_accrued_for_within_deposit;
pub use lifecycle::lemma_cancel_exact_split;
pub use lifecycle::lemma_cancelled_accrual_frozen;
pub use lifecycle::lemma_completed_accrual_deterministic;
pub use lifecycle::lemma_stream_ids_dense;
pub use lifecycle::lemma_withdraw_idempotent_at_zero;
pub use lifecycle::lemma_withdraw_monotone;
pub use lifecycle::spec_accrued_for;
pub use lifecycle::spec_batch_total;
pub use lifecycle::spec_cancel_stream;
pub use lifecycle::spec_new_stream;
pub use lifecycle::spec_validate_params;
pub use lifecycle::spec_withdraw_stream;
pub use lifecycle::FluxoraStream;
pub use transfer::account_after;
pub use transfer::account_after_action;
pub use transfer::escrow_after;
pub use transfer::escrow_after_action;
pub use transfer::lemma_transfer_conserves_total;
pub use transfer::lemma_transfer_sequence_conserves_total;
pub use transfer::TransferAction;
pub use types::Address;
pub use types::Config;
pub use types::ContractError;
pub use types::CreateStreamParams;
pub use types::DataKey;
pub use types::Stream;
pub use types::StreamEvent;
pub use types::StreamStatus;
