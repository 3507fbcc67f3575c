use cinema::models::{TransactionType, User, UserType};
use cinema::payouts::WithdrawError;
use cinema::store::Store;
use cinema::tokens::TransferError;
use cinema::{SUBSCRIBER_GRANT_COUNT, TOKEN_VALIDITY_SECS, TOKEN_VALUE};

fn plain_user(id: i32, name: &str, user_type: UserType) -> User {
    User {
        id,
        username: name.to_string(),
        password: String::new(),
        email: format!("{}@example.com", name),
        password_reset_token: None,
        user_type,
        stripe_customer: None,
        subscribed: false,
        stripe_account: None,
        channel_onboarded: false,
        avatar_filename: None,
        cover_filename: None,
        subscriptions_enabled: false,
        display_name: None,
        bio: None,
    }
}

fn store_with_pair() -> Store {
    // a viewer (id 1) and a channel (id 2)
    let mut s = Store::new();
    s.users.push(plain_user(1, "viewer", UserType::Subscriber));
    s.users.push(plain_user(2, "channel", UserType::Channel));
    s.next_id = 3;
    s
}

#[test]
fn transfer_without_tokens_is_refused_and_mutates_nothing() {
    let mut s = store_with_pair();
    let r = s.transfer_token(1, 2, 1000);
    assert_eq!(r, Err(TransferError::NoTokensAvailable));
    assert_eq!(s.tokens.len(), 0);
    assert_eq!(s.channels_tokens.len(), 0);
    assert_eq!(s.next_id, 3);
}

#[test]
fn transfer_to_missing_or_non_channel_target_is_refused() {
    let mut s = store_with_pair();
    s.add_tokens(1, 1, 500);
    assert_eq!(s.transfer_token(1, 99, 1000), Err(TransferError::TargetNotChannel));
    assert_eq!(s.transfer_token(2, 1, 1000), Err(TransferError::NoTokensAvailable));
    s.add_tokens(2, 1, 500);
    assert_eq!(s.transfer_token(2, 1, 1000), Err(TransferError::TargetNotChannel));
}

#[test]
fn transfer_consumes_oldest_token_and_records_channel_token() {
    let mut s = store_with_pair();
    s.add_tokens(1, 2, 500);
    let first_token_id = s.tokens[0].id;
    let r = s.transfer_token(1, 2, 1000);
    assert_eq!(r, Ok(1000));
    assert!(s.tokens[0].used);
    assert_eq!(s.tokens[0].date_used, Some(1000));
    assert!(!s.tokens[1].used);
    assert_eq!(s.channels_tokens.len(), 1);
    assert_eq!(s.channels_tokens[0].token_id, first_token_id);
    assert_eq!(s.channels_tokens[0].channel_user_id, 2);
    assert_eq!(s.channels_tokens[0].expires, 1000 + TOKEN_VALIDITY_SECS);
    assert!(!s.channels_tokens[0].converted);
}

#[test]
fn racing_second_transfer_with_one_token_fails_and_one_token_is_used() {
    let mut s = store_with_pair();
    s.add_tokens(1, 1, 500);
    let first = s.transfer_token(1, 2, 1000);
    assert!(first.is_ok());
    let second = s.transfer_token(1, 2, 1001);
    assert!(
        second == Err(TransferError::NoTokensAvailable)
            || second == Err(TransferError::AlreadyActive)
    );
    let used: Vec<_> = s.tokens.iter().filter(|t| t.used).collect();
    assert_eq!(used.len(), 1);
    assert_eq!(s.channels_tokens.len(), 1);
}

#[test]
fn transfer_while_token_active_is_refused() {
    let mut s = store_with_pair();
    s.add_tokens(1, 2, 500);
    assert!(s.transfer_token(1, 2, 1000).is_ok());
    assert_eq!(s.transfer_token(1, 2, 1001), Err(TransferError::AlreadyActive));
}

#[test]
fn active_token_expires_after_validity_window() {
    let mut s = store_with_pair();
    s.add_tokens(1, 1, 500);
    assert!(s.transfer_token(1, 2, 1000).is_ok());
    assert!(s.user_has_active_token(1, 2, 1000 + TOKEN_VALIDITY_SECS));
    assert!(!s.user_has_active_token(1, 2, 1001 + TOKEN_VALIDITY_SECS));
}

#[test]
fn has_active_token_route_grants_channels_their_own_page() {
    let s = store_with_pair();
    assert!(s.has_active_token(2, 2, 1000));
    assert!(!s.has_active_token(1, 2, 1000));
}

#[test]
fn conversion_deposits_token_value_per_unconverted_token() {
    let mut s = store_with_pair();
    s.add_tokens(1, 2, 500);
    assert!(s.transfer_token(1, 2, 1000).is_ok());
    s.convert_tokens(2000);
    assert_eq!(s.token_transactions.len(), 1);
    let t = &s.token_transactions[0];
    assert_eq!(t.channel_user_id, 2);
    assert_eq!(t.transaction_type, TransactionType::Deposit);
    assert_eq!(t.amount, TOKEN_VALUE);
    assert_eq!(t.date, 2000);
    assert!(s.channels_tokens.iter().all(|ct| ct.converted));
}

#[test]
fn second_conversion_run_deposits_nothing() {
    let mut s = store_with_pair();
    s.add_tokens(1, 1, 500);
    assert!(s.transfer_token(1, 2, 1000).is_ok());
    s.convert_tokens(2000);
    let balance_after_first = s.get_user_balance(2);
    let rows_after_first = s.token_transactions.len();
    s.convert_tokens(3000);
    assert_eq!(s.token_transactions.len(), rows_after_first);
    assert_eq!(s.get_user_balance(2), balance_after_first);
}

#[test]
fn balance_is_deposits_minus_withdrawals() {
    // a deposit of 180 and a withdrawal of 50 leave 130
    let mut s = store_with_pair();
    s.users[1].stripe_account = Some("acct_1".to_string());
    s.add_tokens(1, 1, 500);
    assert!(s.transfer_token(1, 2, 1000).is_ok());
    s.convert_tokens(2000);
    assert_eq!(s.get_user_balance(2), 180);
    let account = s.generate_withdrawal(2, 50);
    assert_eq!(account, Ok("acct_1".to_string()));
    assert_eq!(s.complete_withdrawal(2, 50, true, 2100), Ok(()));
    assert_eq!(s.get_user_balance(2), 130);
}

#[test]
fn overdrawing_withdrawal_is_refused_and_nothing_is_recorded() {
    let mut s = store_with_pair();
    s.users[1].stripe_account = Some("acct_1".to_string());
    s.add_tokens(1, 1, 500);
    assert!(s.transfer_token(1, 2, 1000).is_ok());
    s.convert_tokens(2000);
    let before = s.token_transactions.len();
    assert_eq!(s.generate_withdrawal(2, 181), Err(WithdrawError::InsufficientBalance));
    assert_eq!(s.token_transactions.len(), before);
    assert_eq!(s.get_user_balance(2), 180);
}

#[test]
fn withdrawal_without_payment_account_is_refused() {
    let mut s = store_with_pair();
    s.add_tokens(1, 1, 500);
    assert!(s.transfer_token(1, 2, 1000).is_ok());
    s.convert_tokens(2000);
    assert_eq!(s.generate_withdrawal(2, 50), Err(WithdrawError::NotOnboarded));
}

#[test]
fn failed_external_transfer_debits_nothing() {
    let mut s = store_with_pair();
    s.users[1].stripe_account = Some("acct_1".to_string());
    s.add_tokens(1, 1, 500);
    assert!(s.transfer_token(1, 2, 1000).is_ok());
    s.convert_tokens(2000);
    assert_eq!(s.complete_withdrawal(2, 50, false, 2100), Err(WithdrawError::PayoutFailed));
    assert_eq!(s.get_user_balance(2), 180);
}

#[test]
fn completion_rechecks_balance_before_debiting() {
    let mut s = store_with_pair();
    s.users[1].stripe_account = Some("acct_1".to_string());
    assert_eq!(
        s.complete_withdrawal(2, 50, true, 2100),
        Err(WithdrawError::InsufficientBalance)
    );
    assert_eq!(s.token_transactions.len(), 0);
}

#[test]
fn grant_batch_gives_five_tokens_to_each_enabled_user() {
    let mut s = store_with_pair();
    s.users[0].subscriptions_enabled = true;
    s.assign_tokens(500);
    assert_eq!(s.tokens.len(), SUBSCRIBER_GRANT_COUNT as usize);
    assert!(s.tokens.iter().all(|t| t.user_id == 1 && !t.used && t.date_granted == 500));
    s.users[1].subscriptions_enabled = true;
    s.assign_tokens(600);
    assert_eq!(s.tokens.len(), 3 * SUBSCRIBER_GRANT_COUNT as usize);
}

#[test]
fn transaction_history_lists_only_the_channels_rows() {
    let mut s = store_with_pair();
    s.users[1].stripe_account = Some("acct_1".to_string());
    s.add_tokens(1, 1, 500);
    assert!(s.transfer_token(1, 2, 1000).is_ok());
    s.convert_tokens(2000);
    assert_eq!(s.complete_withdrawal(2, 30, true, 2100), Ok(()));
    let history = s.get_user_transactions(2);
    assert_eq!(history.len(), 2);
    assert_eq!(history[0].amount, TOKEN_VALUE);
    assert_eq!(history[1].amount, 30);
    assert!(s.get_user_transactions(1).is_empty());
}

#[test]
fn balance_view_reports_unconverted_token_count() {
    let mut s = store_with_pair();
    s.add_tokens(1, 2, 500);
    assert!(s.transfer_token(1, 2, 1000).is_ok());
    let view = s.get_my_balance(2);
    assert_eq!(view.balance, 0);
    assert_eq!(view.unconverted_tokens, 1);
    s.convert_tokens(2000);
    let view = s.get_my_balance(2);
    assert_eq!(view.balance, TOKEN_VALUE as i64);
    assert_eq!(view.unconverted_tokens, 0);
}

#[test]
fn my_tokens_and_active_tokens_views() {
    let mut s = store_with_pair();
    s.add_tokens(1, 2, 500);
    assert!(s.transfer_token(1, 2, 1000).is_ok());
    let mine = s.get_my_tokens(1);
    assert_eq!(mine.len(), 2);
    assert!(s.get_my_tokens(2).is_empty());
    let active = s.get_active_tokens(1, 1500);
    assert_eq!(active.len(), 1);
    assert_eq!(active[0].channel_user_id, 2);
    assert_eq!(active[0].user.username, "channel");
    assert_eq!(active[0].user.subscribers, 1);
    assert!(s.get_active_tokens(1, 1001 + TOKEN_VALIDITY_SECS).is_empty());
}
