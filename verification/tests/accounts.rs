use cinema::auth::{
    LoginError, LoginInfo, Object, OnBoardCompleteWebhookBody, RegisterError, RegisterInfo,
    ResetError, ResetPasswordInfo,
};
use cinema::models::UserType;
use cinema::store::Store;
use cinema::users::{UpdateChannelData, UpdateUserError};
use cinema::{RESET_TOKEN_LEN, SESSION_TTL_SECS, SUBSCRIBER_GRANT_COUNT};

fn register_info(username: &str, email: &str, password: &str, user_type: UserType) -> RegisterInfo {
    RegisterInfo {
        username: username.to_string(),
        email: email.to_string(),
        password: password.to_string(),
        user_type,
        payment_method_id: None,
    }
}

#[test]
fn registration_validates_its_fields() {
    let mut s = Store::new();
    let r = s.register(&register_info("", "a@example.com", "pw", UserType::Subscriber), 100);
    assert_eq!(r, Err(RegisterError::InvalidInfo));
    let r = s.register(&register_info("ann", "not-an-email", "pw", UserType::Subscriber), 100);
    assert_eq!(r, Err(RegisterError::InvalidInfo));
    let r = s.register(&register_info("ann", "", "pw", UserType::Subscriber), 100);
    assert_eq!(r, Err(RegisterError::InvalidInfo));
    let r = s.register(&register_info("ann", "a@example.com", "", UserType::Subscriber), 100);
    assert_eq!(r, Err(RegisterError::InvalidInfo));
    assert!(s.users.is_empty());
}

#[test]
fn registration_stores_a_hash_and_grants_subscriber_tokens() {
    let mut s = Store::new();
    let uid = s
        .register(&register_info("ann", "a@example.com", "secret", UserType::Subscriber), 100)
        .expect("registration accepted");
    assert_eq!(s.users.len(), 1);
    let u = &s.users[0];
    assert_eq!(u.id, uid);
    assert_ne!(u.password, "secret");
    assert_eq!(u.password.len(), 60);
    assert!(u.subscriptions_enabled);
    assert_eq!(s.tokens.len(), SUBSCRIBER_GRANT_COUNT as usize);
    assert!(s.tokens.iter().all(|t| t.user_id == uid));

    let cid = s
        .register(&register_info("bob", "b@example.com", "secret2", UserType::Channel), 100)
        .expect("registration accepted");
    assert!(!s.users[1].subscriptions_enabled);
    assert_eq!(s.tokens.len(), SUBSCRIBER_GRANT_COUNT as usize);
    assert_ne!(uid, cid);
}

#[test]
fn registering_with_a_prepared_hash_stores_it_verbatim() {
    let mut s = Store::new();
    let hash = bcrypt::hash("pw", 4).expect("hashing succeeds");
    let uid = s
        .register_with_hash(
            &register_info("ann", "a@example.com", "pw", UserType::Subscriber),
            hash.clone(),
            100,
        )
        .expect("registration accepted");
    assert_eq!(s.users[0].password, hash);
    let claim = s
        .login(&LoginInfo { username: "ann".to_string(), password: "pw".to_string() }, 100)
        .expect("the stored hash matches the password");
    assert_eq!(claim.id, uid);
}

#[test]
fn registration_refuses_taken_identities() {
    let mut s = Store::new();
    assert!(s.register(&register_info("ann", "a@example.com", "pw", UserType::Subscriber), 100).is_ok());
    let r = s.register(&register_info("ann", "other@example.com", "pw", UserType::Subscriber), 100);
    assert_eq!(r, Err(RegisterError::AlreadyRegistered));
    let r = s.register(&register_info("ann2", "a@example.com", "pw", UserType::Subscriber), 100);
    assert_eq!(r, Err(RegisterError::AlreadyRegistered));
    assert_eq!(s.users.len(), 1);
}

#[test]
fn login_round_trip_checks_the_real_hash() {
    let mut s = Store::new();
    let uid = s
        .register(&register_info("ann", "a@example.com", "secret", UserType::Subscriber), 100)
        .expect("registration accepted");
    let claim = s
        .login(&LoginInfo { username: "ann".to_string(), password: "secret".to_string() }, 5000)
        .expect("correct password accepted");
    assert_eq!(claim.id, uid);
    assert_eq!(claim.username, "ann");
    assert_eq!(claim.email, "a@example.com");
    assert_eq!(claim.exp, 5000 + SESSION_TTL_SECS);
    assert_eq!(claim.user_type, UserType::Subscriber);

    let wrong = s.login(
        &LoginInfo { username: "ann".to_string(), password: "Secret".to_string() },
        5000,
    );
    assert_eq!(wrong, Err(LoginError::IncorrectPassword));
    let missing = s.login(
        &LoginInfo { username: "nobody".to_string(), password: "secret".to_string() },
        5000,
    );
    assert_eq!(missing, Err(LoginError::UserNotFound));
}

#[test]
fn password_reset_flow_consumes_its_token() {
    let mut s = Store::new();
    assert!(s.register(&register_info("ann", "a@example.com", "old", UserType::Subscriber), 100).is_ok());

    let r = s.request_password_reset(&"not-an-email".to_string());
    assert_eq!(r, Err(ResetError::InvalidEmail));
    let r = s.request_password_reset(&"unknown@example.com".to_string());
    assert_eq!(r, Ok(None));

    let token = s
        .request_password_reset(&"a@example.com".to_string())
        .expect("request accepted")
        .expect("a token is issued");
    assert_eq!(token.len(), RESET_TOKEN_LEN);
    assert!(token.chars().all(|c| c.is_ascii_alphanumeric()));

    let wrong = s.reset_password(&ResetPasswordInfo {
        email: "a@example.com".to_string(),
        token: "wrong-token".to_string(),
        new_password: "new".to_string(),
    });
    assert_eq!(wrong, Err(ResetError::IncorrectToken));

    let ok = s.reset_password(&ResetPasswordInfo {
        email: "a@example.com".to_string(),
        token: token.clone(),
        new_password: "new".to_string(),
    });
    assert_eq!(ok, Ok(()));
    assert!(s.users[0].password_reset_token.is_none());

    // the token is consumed: a second reset with it is refused
    let again = s.reset_password(&ResetPasswordInfo {
        email: "a@example.com".to_string(),
        token,
        new_password: "newer".to_string(),
    });
    assert_eq!(again, Err(ResetError::NoResetRequested));

    assert!(s
        .login(&LoginInfo { username: "ann".to_string(), password: "new".to_string() }, 100)
        .is_ok());
    assert_eq!(
        s.login(&LoginInfo { username: "ann".to_string(), password: "old".to_string() }, 100),
        Err(LoginError::IncorrectPassword)
    );
}

#[test]
fn reset_for_unknown_user_reports_user_not_found() {
    let mut s = Store::new();
    let r = s.reset_password(&ResetPasswordInfo {
        email: "ghost@example.com".to_string(),
        token: "t".to_string(),
        new_password: "n".to_string(),
    });
    assert_eq!(r, Err(ResetError::UserNotFound));
}

fn empty_update() -> UpdateChannelData {
    UpdateChannelData {
        disable_subscriptions: None,
        bio: None,
        display_name: None,
        current_password: None,
        new_password: None,
    }
}

#[test]
fn profile_update_applies_each_provided_field() {
    let mut s = Store::new();
    let uid = s
        .register(&register_info("ann", "a@example.com", "secret", UserType::Channel), 100)
        .expect("registration accepted");
    let data = UpdateChannelData {
        disable_subscriptions: Some(true),
        bio: Some("about me".to_string()),
        display_name: Some("Ann".to_string()),
        ..empty_update()
    };
    assert_eq!(s.update_user(uid, &data), Ok(()));
    assert_eq!(s.users[0].bio.as_deref(), Some("about me"));
    assert_eq!(s.users[0].display_name.as_deref(), Some("Ann"));
    assert!(s.users[0].subscriptions_enabled);
}

#[test]
fn password_change_needs_the_current_password() {
    let mut s = Store::new();
    let uid = s
        .register(&register_info("ann", "a@example.com", "secret", UserType::Channel), 100)
        .expect("registration accepted");
    let wrong = UpdateChannelData {
        current_password: Some("nope".to_string()),
        new_password: Some("next".to_string()),
        ..empty_update()
    };
    assert_eq!(s.update_user(uid, &wrong), Err(UpdateUserError::IncorrectPassword));

    let incomplete = UpdateChannelData {
        current_password: Some("secret".to_string()),
        ..empty_update()
    };
    assert_eq!(s.update_user(uid, &incomplete), Err(UpdateUserError::MissingNewPassword));

    let good = UpdateChannelData {
        current_password: Some("secret".to_string()),
        new_password: Some("next".to_string()),
        ..empty_update()
    };
    assert_eq!(s.update_user(uid, &good), Ok(()));
    assert!(s
        .login(&LoginInfo { username: "ann".to_string(), password: "next".to_string() }, 100)
        .is_ok());

    let ghost = UpdateChannelData {
        current_password: Some("next".to_string()),
        new_password: Some("x".to_string()),
        ..empty_update()
    };
    assert_eq!(s.update_user(999, &ghost), Err(UpdateUserError::UserMissing));
}

#[test]
fn onboarding_hook_marks_the_channel_once_payouts_are_enabled() {
    let mut s = Store::new();
    let uid = s
        .register(&register_info("ann", "a@example.com", "secret", UserType::Channel), 100)
        .expect("registration accepted");
    assert_eq!(s.is_channel_onboarded(uid), Some(false));
    s.stripe_account_updated_hook(&OnBoardCompleteWebhookBody {
        data: Object { email: Some("a@example.com".to_string()), payouts_enabled: Some(false) },
    });
    assert_eq!(s.is_channel_onboarded(uid), Some(false));
    s.stripe_account_updated_hook(&OnBoardCompleteWebhookBody {
        data: Object { email: Some("a@example.com".to_string()), payouts_enabled: Some(true) },
    });
    assert_eq!(s.is_channel_onboarded(uid), Some(true));
    assert_eq!(s.is_channel_onboarded(999), None);
}

#[test]
fn payment_references_are_stored_by_the_setters() {
    let mut s = Store::new();
    let uid = s
        .register(&register_info("ann", "a@example.com", "secret", UserType::Channel), 100)
        .expect("registration accepted");
    assert_eq!(s.get_stripe_account(uid), None);
    s.set_stripe_account(uid, "acct_9".to_string());
    s.set_stripe_customer(uid, "cus_7".to_string());
    assert_eq!(s.get_stripe_account(uid), Some("acct_9".to_string()));
    assert_eq!(s.users[0].stripe_customer.as_deref(), Some("cus_7"));
    s.set_avatar_filename(uid, "me.png".to_string());
    s.set_cover_filename(uid, "banner.png".to_string());
    assert_eq!(s.users[0].avatar_filename.as_deref(), Some("me.png"));
    assert_eq!(s.users[0].cover_filename.as_deref(), Some("banner.png"));
}
