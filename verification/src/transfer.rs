//! Fund movements as data.
//!
//! The engine never moves value itself: a state transition that owes a
//! transfer returns a [`TransferAction`], and the host performs it after the
//! new state is persisted (state-before-transfer ordering).  Modelling the
//! movements as values lets conservation be stated and proved: applying any
//! sequence of actions leaves the sum of the sender's, the recipient's and
//! the escrow's balances unchanged.

use crate::types::Address;
use vstd::prelude::*;

verus! {

/// One fund movement between an external account and the engine's escrow.
#[derive(Clone, Copy, Debug, PartialEq, Eq, Structural)]
pub enum TransferAction {
    /// Move `amount` from the account `from` into the escrow.
    Escrow { from: Address, amount: i128 },
    /// Move `amount` out of the escrow to the account `to`.
    Payout { to: Address, amount: i128 },
}

impl TransferAction {
    /// The external account this action touches.
    pub open spec fn party(self) -> Address {
        match self {
            TransferAction::Escrow { from, amount } => from,
            TransferAction::Payout { to, amount } => to,
        }
    }

    /// The amount this action moves.
    pub open spec fn amount(self) -> int {
        match self {
            TransferAction::Escrow { from, amount } => amount as int,
            TransferAction::Payout { to, amount } => amount as int,
        }
    }
}

/// Balance of the external account `who` after performing `action`, given
/// its balance before.
pub open spec fn account_after_action(balance: int, who: Address, action: TransferAction) -> int {
    match action {
        TransferAction::Escrow { from, amount } => if from == who {
            balance - amount
        } else {
            balance
        },
        TransferAction::Payout { to, amount } => if to == who {
            balance + amount
        } else {
            balance
        },
    }
}

/// Balance of the escrow after performing `action`, given its balance
/// before.
pub open spec fn escrow_after_action(balance: int, action: TransferAction) -> int {
    match action {
        TransferAction::Escrow { from, amount } => balance + amount,
        TransferAction::Payout { to, amount } => balance - amount,
    }
}

/// Balance of the account `who` after performing a sequence of actions in
/// order.
pub open spec fn account_after(balance: int, who: Address, actions: Seq<TransferAction>) -> int
    decreases actions.len(),
{
    if actions.len() == 0 {
        balance
    } else {
        account_after_action(account_after(balance, who, actions.drop_last()), who, actions.last())
    }
}

/// Balance of the escrow after performing a sequence of actions in order.
pub open spec fn escrow_after(balance: int, actions: Seq<TransferAction>) -> int
    decreases actions.len(),
{
    if actions.len() == 0 {
        balance
    } else {
        escrow_after_action(escrow_after(balance, actions.drop_last()), actions.last())
    }
}

/// Conservation, one step: a single transfer between the escrow and one of
/// two distinct accounts moves value, never creates or destroys it.
pub proof fn lemma_transfer_conserves_total(
    sender_balance: int,
    recipient_balance: int,
    escrow_balance: int,
    sender: Address,
    recipient: Address,
    action: TransferAction,
)
    requires
        sender != recipient,
        action.party() == sender || action.party() == recipient,
    ensures
        account_after_action(sender_balance, sender, action) + account_after_action(
            recipient_balance,
            recipient,
            action,
        ) + escrow_after_action(escrow_balance, action) == sender_balance + recipient_balance
            + escrow_balance,
{
}

/// Conservation: across any sequence of transfers between the escrow and
/// two distinct accounts — which is what any run of create, cancel and
/// withdraw emits — the sum of the two account balances and the escrow
/// balance is invariant.
pub proof fn lemma_transfer_sequence_conserves_total(
    sender_balance: int,
    recipient_balance: int,
    escrow_balance: int,
    sender: Address,
    recipient: Address,
    actions: Seq<TransferAction>,
)
    requires
        sender != recipient,
        forall|i: int|
            0 <= i < actions.len() ==> ((#[trigger] actions[i]).party() == sender
                || actions[i].party() == recipient),
    ensures
        account_after(sender_balance, sender, actions) + account_after(
            recipient_balance,
            recipient,
            actions,
        ) + escrow_after(escrow_balance, actions) == sender_balance + recipient_balance
            + escrow_balance,
    decreases actions.len(),
{
    if actions.len() > 0 {
        let prefix = actions.drop_last();
        assert(forall|i: int|
            0 <= i < prefix.len() ==> ((#[trigger] prefix[i]).party() == sender
                || prefix[i].party() == recipient));
        lemma_transfer_sequence_conserves_total(
            sender_balance,
            recipient_balance,
            escrow_balance,
            sender,
            recipient,
            prefix,
        );
        lemma_transfer_conserves_total(
            account_after(sender_balance, sender, prefix),
            account_after(recipient_balance, recipient, prefix),
            escrow_after(escrow_balance, prefix),
            sender,
            recipient,
            actions.last(),
        );
    }
}

} // verus!
