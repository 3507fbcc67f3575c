//! The payout coordinator: a withdrawal request is checked against the
//! ledger here, the external transfer is performed by the caller, and its
//! outcome is recorded here. The ledger is debited only after a transfer
//! succeeded, and the balance is re-checked at recording time, so a race of
//! concurrent withdrawals can never leave the balance overdrawn.

use vstd::prelude::*;

use crate::models::{TokenTransaction, TransactionType};
use crate::query::first_match;
use crate::store::{user_with_id, Store};
use crate::tokens::spec_balance;
use crate::MAX_ROWS;

verus! {

/// Request to withdraw an amount from one's channel balance.
#[derive(Clone, Copy, Debug)]
pub struct GenerateWithdrawalBody {
    pub amount: u32,
}

/// What the payment processor's account-link reply carries: the onboarding
/// URL to send the channel to.
#[derive(Debug)]
pub struct CreateAccountLinkResponse {
    pub url: String,
}

/// The payment processor's transfer reply; the ledger only cares that one
/// arrived.
#[derive(Clone, Copy, Debug)]
pub struct CreateTransferResponse {}

/// Why a withdrawal was refused.
#[derive(Clone, Copy, PartialEq, Eq, Structural, Debug)]
pub enum WithdrawError {
    /// The requested amount exceeds the channel's current balance.
    InsufficientBalance,
    /// The channel has no linked external payment account.
    NotOnboarded,
    /// The external transfer did not succeed; the ledger was not debited.
    PayoutFailed,
}

/// The refusal a withdrawal request meets before any external call, in check
/// order, or `None` when the transfer may proceed.
pub open spec fn spec_withdraw_error(s: Store, channel: i32, amount: u32) -> Option<
    WithdrawError,
> {
    let ui = first_match(s.users@, user_with_id(channel));
    if spec_balance(s.token_transactions@, channel) < amount {
        Some(WithdrawError::InsufficientBalance)
    } else if ui < 0 || s.users@[ui].stripe_account is None {
        Some(WithdrawError::NotOnboarded)
    } else {
        None
    }
}

impl Store {
    /// Checks a withdrawal request and hands back the payment account to
    /// transfer `amount` to. Reads only: nothing is debited until
    /// [`Store::complete_withdrawal`] sees a successful transfer.
    pub fn generate_withdrawal(&self, channel_user_id: i32, amount: u32) -> (r: Result<
        String,
        WithdrawError,
    >)
        requires
            self.wf(),
        ensures
            match r {
                Ok(account) => {
                    &&& spec_withdraw_error(*self, channel_user_id, amount) is None
                    &&& account@ == self.users@[first_match(
                        self.users@,
                        user_with_id(channel_user_id),
                    )].stripe_account->0@
                },
                Err(e) => spec_withdraw_error(*self, channel_user_id, amount) == Some(e),
            },
    {
        let balance = self.get_user_balance(channel_user_id);
        if balance < amount as i64 {
            return Err(WithdrawError::InsufficientBalance);
        }
        match self.user_index(channel_user_id) {
            None => Err(WithdrawError::NotOnboarded),
            Some(ui) => match &self.users[ui].stripe_account {
                None => Err(WithdrawError::NotOnboarded),
                Some(account) => Ok(account.clone()),
            },
        }
    }

    /// Records the outcome of the external transfer for a withdrawal of
    /// `amount`: a failed transfer debits nothing, and a successful one is
    /// entered as a withdrawal only after the balance still covers it.
    pub fn complete_withdrawal(
        &mut self,
        channel_user_id: i32,
        amount: u32,
        transfer_succeeded: bool,
        now: u64,
    ) -> (r: Result<(), WithdrawError>)
        requires
            old(self).wf(),
            old(self).next_id < i32::MAX,
            old(self).token_transactions@.len() < MAX_ROWS,
        ensures
            final(self).wf(),
            match r {
                Ok(()) => {
                    &&& transfer_succeeded
                    &&& spec_balance(old(self).token_transactions@, channel_user_id) >= amount
                    &&& spec_balance(final(self).token_transactions@, channel_user_id)
                        == spec_balance(old(self).token_transactions@, channel_user_id) - amount
                    &&& final(self).token_transactions@ == old(self).token_transactions@.push(
                        (TokenTransaction {
                            id: old(self).next_id,
                            channel_user_id,
                            transaction_type: TransactionType::Withdrawal,
                            amount,
                            date: now,
                        }),
                    )
                    &&& final(self).next_id == old(self).next_id + 1
                    &&& final(self).users == old(self).users
                    &&& final(self).tokens == old(self).tokens
                    &&& final(self).channels_tokens == old(self).channels_tokens
                    &&& final(self).videos == old(self).videos
                    &&& final(self).tags == old(self).tags
                    &&& final(self).videos_tags == old(self).videos_tags
                    &&& final(self).video_plays == old(self).video_plays
                    &&& final(self).comments == old(self).comments
                    &&& final(self).comment_upvotes == old(self).comment_upvotes
                    &&& final(self).video_upvotes == old(self).video_upvotes
                },
                Err(e) => {
                    &&& *final(self) == *old(self)
                    &&& e != WithdrawError::NotOnboarded
                    &&& e == WithdrawError::PayoutFailed <==> !transfer_succeeded
                    &&& e == WithdrawError::InsufficientBalance <==> (transfer_succeeded
                        && spec_balance(old(self).token_transactions@, channel_user_id) < amount)
                },
            },
    {
        if !transfer_succeeded {
            return Err(WithdrawError::PayoutFailed);
        }
        let balance = self.get_user_balance(channel_user_id);
        if balance < amount as i64 {
            return Err(WithdrawError::InsufficientBalance);
        }
        let entry = TokenTransaction {
            id: self.next_id,
            channel_user_id,
            transaction_type: TransactionType::Withdrawal,
            amount,
            date: now,
        };
        self.token_transactions.push(entry);
        self.next_id = self.next_id + 1;
        proof {
            assert(self.token_transactions@.drop_last() =~= old(self).token_transactions@);
            assert(self.token_transactions@.last() == entry);
        }
        Ok(())
    }

    /// The linked payment account of a user, for building an onboarding
    /// link; `None` when the user is missing or not linked.
    pub fn get_stripe_account(&self, user_id: i32) -> (r: Option<String>)
        ensures
            ({
                let ui = first_match(self.users@, user_with_id(user_id));
                match r {
                    Some(account) => ui >= 0 && self.users@[ui].stripe_account is Some
                        && account@ == self.users@[ui].stripe_account->0@,
                    None => ui < 0 || self.users@[ui].stripe_account is None,
                }
            }),
    {
        match self.user_index(user_id) {
            None => None,
            Some(ui) => match &self.users[ui].stripe_account {
                None => None,
                Some(account) => Some(account.clone()),
            },
        }
    }
}

} // verus!
