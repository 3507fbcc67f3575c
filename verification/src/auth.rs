//! Accounts and identity: registration, login, the password-reset flow, and
//! the onboarding callback. Password hashing, e-mail validation, and reset
//! token generation are outside collaborators, reached through the trusted
//! wrappers at the bottom of this file; everything decided on their results
//! is verified.

use vstd::prelude::*;

use crate::models::{Token, User, UserClaim, UserType};
use crate::query::{first_match, lemma_first_match_at, lemma_first_match_none};
use crate::store::{user_with_email, user_with_username, Store};
use crate::{BCRYPT_COST, RESET_TOKEN_LEN, SESSION_TTL_SECS, SUBSCRIBER_GRANT_COUNT};

verus! {

/// Credentials presented at login.
#[derive(Debug)]
pub struct LoginInfo {
    pub username: String,
    pub password: String,
}

/// The fields of a registration request.
#[derive(Debug)]
pub struct RegisterInfo {
    pub username: String,
    pub email: String,
    pub password: String,
    pub user_type: UserType,
    pub payment_method_id: Option<String>,
}

/// Request to start a password reset.
#[derive(Debug)]
pub struct RequestPasswordResetInfo {
    pub email: String,
}

/// Request to finish a password reset.
#[derive(Debug)]
pub struct ResetPasswordInfo {
    pub email: String,
    pub token: String,
    pub new_password: String,
}

/// What the payment processor's account-updated callback carries, reduced
/// to the fields the handler reads.
#[derive(Debug)]
pub struct Object {
    pub email: Option<String>,
    pub payouts_enabled: Option<bool>,
}

/// The body of the account-updated callback.
#[derive(Debug)]
pub struct OnBoardCompleteWebhookBody {
    pub data: Object,
}

/// Why a login was refused.
#[derive(Clone, Copy, PartialEq, Eq, Structural, Debug)]
pub enum LoginError {
    /// No account carries this username.
    UserNotFound,
    /// The password does not match the stored hash.
    IncorrectPassword,
}

/// Why a registration was refused.
#[derive(Clone, Copy, PartialEq, Eq, Structural, Debug)]
pub enum RegisterError {
    /// Empty username or password, or an invalid e-mail address.
    InvalidInfo,
    /// The username or the e-mail address is already taken.
    AlreadyRegistered,
    /// The password hasher failed; nothing was stored.
    HashFailure,
}

/// Why a password-reset step was refused.
#[derive(Clone, Copy, PartialEq, Eq, Structural, Debug)]
pub enum ResetError {
    /// The presented e-mail address is invalid.
    InvalidEmail,
    /// No account carries this e-mail address.
    UserNotFound,
    /// The account has no outstanding reset request.
    NoResetRequested,
    /// The presented token does not match the stored hash.
    IncorrectToken,
    /// The password hasher failed; nothing was stored.
    HashFailure,
}

/// A registration that is refused outright: empty username, invalid e-mail,
/// or empty password.
pub open spec fn spec_register_invalid(data: RegisterInfo) -> bool {
    ||| data.username@.len() == 0
    ||| !email_accepted(data.email@)
    ||| data.password@.len() == 0
}

impl Store {
    /// Index of the user row with this username, if any.
    pub(crate) fn user_index_by_username(&self, username: &String) -> (r: Option<usize>)
        ensures
            match r {
                Some(i) => {
                    &&& i < self.users@.len()
                    &&& i == first_match(self.users@, user_with_username(username@))
                    &&& self.users@[i as int].username@ == username@
                },
                None => first_match(self.users@, user_with_username(username@)) < 0,
            },
    {
        let n: usize = self.users.len();
        let mut i: usize = 0;
        while i < n
            invariant
                i <= n,
                n == self.users@.len(),
                forall|j: int|
                    0 <= j < i ==> !(user_with_username(username@)(#[trigger] self.users@[j])),
            decreases n - i,
        {
            if self.users[i].username == *username {
                proof {
                    lemma_first_match_at(self.users@, user_with_username(username@), i as int);
                }
                return Some(i);
            }
            i = i + 1;
        }
        proof {
            lemma_first_match_none(self.users@, user_with_username(username@));
        }
        None
    }

    /// Index of the user row with this e-mail address, if any.
    pub(crate) fn user_index_by_email(&self, email: &String) -> (r: Option<usize>)
        ensures
            match r {
                Some(i) => {
                    &&& i < self.users@.len()
                    &&& i == first_match(self.users@, user_with_email(email@))
                    &&& self.users@[i as int].email@ == email@
                },
                None => first_match(self.users@, user_with_email(email@)) < 0,
            },
    {
        let n: usize = self.users.len();
        let mut i: usize = 0;
        while i < n
            invariant
                i <= n,
                n == self.users@.len(),
                forall|j: int| 0 <= j < i ==> !(user_with_email(email@)(#[trigger] self.users@[j])),
            decreases n - i,
        {
            if self.users[i].email == *email {
                proof {
                    lemma_first_match_at(self.users@, user_with_email(email@), i as int);
                }
                return Some(i);
            }
            i = i + 1;
        }
        proof {
            lemma_first_match_none(self.users@, user_with_email(email@));
        }
        None
    }

    /// Checks credentials and issues the identity claim a session token is
    /// minted from, valid for [`SESSION_TTL_SECS`] from `now`.
    pub fn login(&self, data: &LoginInfo, now: u64) -> (r: Result<UserClaim, LoginError>)
        requires
            now + SESSION_TTL_SECS <= u64::MAX,
        ensures
            ({
                let ui = first_match(self.users@, user_with_username(data.username@));
                match r {
                    Ok(claim) => {
                        &&& ui >= 0
                        &&& bcrypt_accepts(data.password@, self.users@[ui].password@)
                        &&& claim.id == self.users@[ui].id
                        &&& claim.username@ == self.users@[ui].username@
                        &&& claim.email@ == self.users@[ui].email@
                        &&& claim.exp == now + SESSION_TTL_SECS
                        &&& claim.user_type == self.users@[ui].user_type
                    },
                    Err(LoginError::UserNotFound) => ui < 0,
                    Err(LoginError::IncorrectPassword) => ui >= 0 && !bcrypt_accepts(
                        data.password@,
                        self.users@[ui].password@,
                    ),
                }
            }),
    {
        let ui = match self.user_index_by_username(&data.username) {
            Some(ui) => ui,
            None => {
                return Err(LoginError::UserNotFound);
            },
        };
        let user = &self.users[ui];
        if !verify_password(data.password.as_str(), user.password.as_str()) {
            return Err(LoginError::IncorrectPassword);
        }
        Ok(
            UserClaim {
                id: user.id,
                username: user.username.clone(),
                email: user.email.clone(),
                exp: now + SESSION_TTL_SECS,
                user_type: user.user_type,
            },
        )
    }

    /// Creates an account from an already hashed password: validates the
    /// fields, refuses taken identities, stores the hash as given, and
    /// grants a subscriber their first tokens. Success is owed whenever the
    /// fields are valid and the identity is free.
    pub fn register_with_hash(
        &mut self,
        data: &RegisterInfo,
        password_hash: String,
        now: u64,
    ) -> (r: Result<i32, RegisterError>)
        requires
            old(self).wf(),
            old(self).next_id + 1 + SUBSCRIBER_GRANT_COUNT <= i32::MAX,
        ensures
            final(self).wf(),
            match r {
                Err(RegisterError::InvalidInfo) => spec_register_invalid(*data) && *final(self)
                    == *old(self),
                Err(RegisterError::AlreadyRegistered) => {
                    &&& !spec_register_invalid(*data)
                    &&& (first_match(old(self).users@, user_with_username(data.username@)) >= 0
                        || first_match(old(self).users@, user_with_email(data.email@)) >= 0)
                    &&& *final(self) == *old(self)
                },
                Err(RegisterError::HashFailure) => false,
                Ok(uid) => {
                    &&& !spec_register_invalid(*data)
                    &&& first_match(old(self).users@, user_with_username(data.username@)) < 0
                    &&& first_match(old(self).users@, user_with_email(data.email@)) < 0
                    &&& uid == old(self).next_id
                    &&& final(self).users@.len() == old(self).users@.len() + 1
                    &&& final(self).users@.take(old(self).users@.len() as int) == old(self).users@
                    &&& ({
                        let u = final(self).users@.last();
                        &&& u.id == uid
                        &&& u.username@ == data.username@
                        &&& u.password@ == password_hash@
                        &&& u.email@ == data.email@
                        &&& u.password_reset_token is None
                        &&& u.user_type == data.user_type
                        &&& u.stripe_customer is None
                        &&& !u.subscribed
                        &&& u.stripe_account is None
                        &&& !u.channel_onboarded
                        &&& u.avatar_filename is None
                        &&& u.cover_filename is None
                        &&& u.subscriptions_enabled == (data.user_type == UserType::Subscriber)
                        &&& u.display_name is None
                        &&& u.bio is None
                    })
                    &&& (data.user_type == UserType::Subscriber ==> final(self).tokens@ == old(
                        self,
                    ).tokens@ + Seq::new(
                        SUBSCRIBER_GRANT_COUNT as nat,
                        |k: int|
                            (Token {
                                id: (old(self).next_id + 1 + k) as i32,
                                user_id: uid,
                                used: false,
                                date_granted: now,
                                date_used: None,
                            }),
                    ))
                    &&& (data.user_type != UserType::Subscriber ==> final(self).tokens == old(
                        self,
                    ).tokens)
                    &&& final(self).next_id == old(self).next_id + 1 + (
                    if data.user_type == UserType::Subscriber {
                        SUBSCRIBER_GRANT_COUNT as int
                    } else {
                        0
                    })
                    &&& final(self).channels_tokens == old(self).channels_tokens
                    &&& final(self).token_transactions == old(self).token_transactions
                    &&& final(self).videos == old(self).videos
                    &&& final(self).tags == old(self).tags
                    &&& final(self).videos_tags == old(self).videos_tags
                    &&& final(self).video_plays == old(self).video_plays
                    &&& final(self).comments == old(self).comments
                    &&& final(self).comment_upvotes == old(self).comment_upvotes
                    &&& final(self).video_upvotes == old(self).video_upvotes
                },
            },
    {
        if data.username.as_str().is_empty() || !check_email(data.email.as_str())
            || data.password.as_str().is_empty() {
            return Err(RegisterError::InvalidInfo);
        }
        if self.user_index_by_username(&data.username).is_some() {
            return Err(RegisterError::AlreadyRegistered);
        }
        if self.user_index_by_email(&data.email).is_some() {
            return Err(RegisterError::AlreadyRegistered);
        }
        let hashed = password_hash;
        let uid = self.next_id;
        let is_subscriber = matches!(data.user_type, UserType::Subscriber);
        let user = User {
            id: uid,
            username: data.username.clone(),
            password: hashed,
            email: data.email.clone(),
            password_reset_token: None,
            user_type: data.user_type,
            stripe_customer: None,
            subscribed: false,
            stripe_account: None,
            channel_onboarded: false,
            avatar_filename: None,
            cover_filename: None,
            subscriptions_enabled: is_subscriber,
            display_name: None,
            bio: None,
        };
        self.users.push(user);
        self.next_id = self.next_id + 1;
        if is_subscriber {
            self.add_tokens(uid, SUBSCRIBER_GRANT_COUNT, now);
        }
        proof {
            assert(self.users@.take(old(self).users@.len() as int) =~= old(self).users@);
        }
        Ok(uid)
    }

    /// Creates an account: like [`Store::register_with_hash`], with the
    /// password hashed here first. Hashing salts from OS randomness, so its
    /// rare failure is surfaced as [`RegisterError::HashFailure`] with
    /// nothing stored.
    pub fn register(&mut self, data: &RegisterInfo, now: u64) -> (r: Result<i32, RegisterError>)
        requires
            old(self).wf(),
            old(self).next_id + 1 + SUBSCRIBER_GRANT_COUNT <= i32::MAX,
        ensures
            final(self).wf(),
            match r {
                Err(RegisterError::InvalidInfo) => spec_register_invalid(*data) && *final(self)
                    == *old(self),
                Err(RegisterError::AlreadyRegistered) => {
                    &&& !spec_register_invalid(*data)
                    &&& (first_match(old(self).users@, user_with_username(data.username@)) >= 0
                        || first_match(old(self).users@, user_with_email(data.email@)) >= 0)
                    &&& *final(self) == *old(self)
                },
                Err(RegisterError::HashFailure) => {
                    &&& !spec_register_invalid(*data)
                    &&& first_match(old(self).users@, user_with_username(data.username@)) < 0
                    &&& first_match(old(self).users@, user_with_email(data.email@)) < 0
                    &&& *final(self) == *old(self)
                },
                Ok(uid) => {
                    &&& !spec_register_invalid(*data)
                    &&& first_match(old(self).users@, user_with_username(data.username@)) < 0
                    &&& first_match(old(self).users@, user_with_email(data.email@)) < 0
                    &&& uid == old(self).next_id
                    &&& final(self).users@.len() == old(self).users@.len() + 1
                    &&& final(self).users@.take(old(self).users@.len() as int) == old(self).users@
                    &&& final(self).users@.last().password@.len() == 60
                    &&& bcrypt_accepts(data.password@, final(self).users@.last().password@)
                    &&& ({
                        let u = final(self).users@.last();
                        &&& u.id == uid
                        &&& u.username@ == data.username@
                        &&& u.email@ == data.email@
                        &&& u.user_type == data.user_type
                        &&& u.subscriptions_enabled == (data.user_type == UserType::Subscriber)
                    })
                    &&& (data.user_type == UserType::Subscriber ==> final(self).tokens@ == old(
                        self,
                    ).tokens@ + Seq::new(
                        SUBSCRIBER_GRANT_COUNT as nat,
                        |k: int|
                            (Token {
                                id: (old(self).next_id + 1 + k) as i32,
                                user_id: uid,
                                used: false,
                                date_granted: now,
                                date_used: None,
                            }),
                    ))
                    &&& (data.user_type != UserType::Subscriber ==> final(self).tokens == old(
                        self,
                    ).tokens)
                    &&& final(self).next_id == old(self).next_id + 1 + (
                    if data.user_type == UserType::Subscriber {
                        SUBSCRIBER_GRANT_COUNT as int
                    } else {
                        0
                    })
                    &&& final(self).channels_tokens == old(self).channels_tokens
                    &&& final(self).token_transactions == old(self).token_transactions
                    &&& final(self).videos == old(self).videos
                    &&& final(self).tags == old(self).tags
                    &&& final(self).videos_tags == old(self).videos_tags
                    &&& final(self).video_plays == old(self).video_plays
                    &&& final(self).comments == old(self).comments
                    &&& final(self).comment_upvotes == old(self).comment_upvotes
                    &&& final(self).video_upvotes == old(self).video_upvotes
                },
            },
    {
        if data.username.as_str().is_empty() || !check_email(data.email.as_str())
            || data.password.as_str().is_empty() {
            return Err(RegisterError::InvalidInfo);
        }
        if self.user_index_by_username(&data.username).is_some() {
            return Err(RegisterError::AlreadyRegistered);
        }
        if self.user_index_by_email(&data.email).is_some() {
            return Err(RegisterError::AlreadyRegistered);
        }
        let hashed = match hash_password(data.password.as_str(), BCRYPT_COST) {
            Some(h) => h,
            None => {
                return Err(RegisterError::HashFailure);
            },
        };
        self.register_with_hash(data, hashed, now)
    }

    /// Stores the hash of a freshly issued reset token on the account with
    /// this e-mail address; `false` (and no change) when no account carries
    /// it.
    pub fn store_reset_token(&mut self, email: &String, token_hash: String) -> (stored: bool)
        requires
            old(self).wf(),
        ensures
            final(self).wf(),
            stored <==> first_match(old(self).users@, user_with_email(email@)) >= 0,
            !stored ==> *final(self) == *old(self),
            stored ==> ({
                let ui = first_match(old(self).users@, user_with_email(email@));
                let u = old(self).users@[ui];
                let u2 = final(self).users@[ui];
                &&& final(self).users@.len() == old(self).users@.len()
                &&& forall|j: int|
                    0 <= j < old(self).users@.len() && j != ui ==> #[trigger] final(self).users@[j]
                        == old(self).users@[j]
                &&& u2.password_reset_token is Some
                &&& u2.password_reset_token->0@ == token_hash@
                &&& u2 == (User { password_reset_token: u2.password_reset_token, ..u })
                &&& final(self).tokens == old(self).tokens
                &&& final(self).channels_tokens == old(self).channels_tokens
                &&& final(self).token_transactions == old(self).token_transactions
                &&& final(self).videos == old(self).videos
                &&& final(self).tags == old(self).tags
                &&& final(self).videos_tags == old(self).videos_tags
                &&& final(self).video_plays == old(self).video_plays
                &&& final(self).comments == old(self).comments
                &&& final(self).comment_upvotes == old(self).comment_upvotes
                &&& final(self).video_upvotes == old(self).video_upvotes
                &&& final(self).next_id == old(self).next_id
            }),
    {
        let ui = match self.user_index_by_email(email) {
            Some(ui) => ui,
            None => {
                return false;
            },
        };
        let u = &self.users[ui];
        let updated = User {
            id: u.id,
            username: u.username.clone(),
            password: u.password.clone(),
            email: u.email.clone(),
            password_reset_token: Some(token_hash),
            user_type: u.user_type,
            stripe_customer: crate::store::clone_opt_string(&u.stripe_customer),
            subscribed: u.subscribed,
            stripe_account: crate::store::clone_opt_string(&u.stripe_account),
            channel_onboarded: u.channel_onboarded,
            avatar_filename: crate::store::clone_opt_string(&u.avatar_filename),
            cover_filename: crate::store::clone_opt_string(&u.cover_filename),
            subscriptions_enabled: u.subscriptions_enabled,
            display_name: crate::store::clone_opt_string(&u.display_name),
            bio: crate::store::clone_opt_string(&u.bio),
        };
        self.users[ui] = updated;
        true
    }

    /// Replaces the password hash of the account with this e-mail address
    /// and consumes its outstanding reset request; `false` (and no change)
    /// when no account carries the address.
    pub fn complete_password_reset(&mut self, email: &String, new_hash: String) -> (applied: bool)
        requires
            old(self).wf(),
        ensures
            final(self).wf(),
            applied <==> first_match(old(self).users@, user_with_email(email@)) >= 0,
            !applied ==> *final(self) == *old(self),
            applied ==> ({
                let ui = first_match(old(self).users@, user_with_email(email@));
                let u = old(self).users@[ui];
                let u2 = final(self).users@[ui];
                &&& final(self).users@.len() == old(self).users@.len()
                &&& forall|j: int|
                    0 <= j < old(self).users@.len() && j != ui ==> #[trigger] final(self).users@[j]
                        == old(self).users@[j]
                &&& u2.password@ == new_hash@
                &&& u2.password_reset_token is None
                &&& u2 == (User { password: u2.password, password_reset_token: None, ..u })
                &&& final(self).tokens == old(self).tokens
                &&& final(self).channels_tokens == old(self).channels_tokens
                &&& final(self).token_transactions == old(self).token_transactions
                &&& final(self).videos == old(self).videos
                &&& final(self).tags == old(self).tags
                &&& final(self).videos_tags == old(self).videos_tags
                &&& final(self).video_plays == old(self).video_plays
                &&& final(self).comments == old(self).comments
                &&& final(self).comment_upvotes == old(self).comment_upvotes
                &&& final(self).video_upvotes == old(self).video_upvotes
                &&& final(self).next_id == old(self).next_id
            }),
    {
        let ui = match self.user_index_by_email(email) {
            Some(ui) => ui,
            None => {
                return false;
            },
        };
        let u = &self.users[ui];
        let updated = User {
            id: u.id,
            username: u.username.clone(),
            password: new_hash,
            email: u.email.clone(),
            password_reset_token: None,
            user_type: u.user_type,
            stripe_customer: crate::store::clone_opt_string(&u.stripe_customer),
            subscribed: u.subscribed,
            stripe_account: crate::store::clone_opt_string(&u.stripe_account),
            channel_onboarded: u.channel_onboarded,
            avatar_filename: crate::store::clone_opt_string(&u.avatar_filename),
            cover_filename: crate::store::clone_opt_string(&u.cover_filename),
            subscriptions_enabled: u.subscriptions_enabled,
            display_name: crate::store::clone_opt_string(&u.display_name),
            bio: crate::store::clone_opt_string(&u.bio),
        };
        self.users[ui] = updated;
        true
    }

    /// Starts a password reset: a fresh random token is generated, only its
    /// hash is stored on the account, and the token itself is handed back
    /// for delivery. An unknown address reports success without a token, so
    /// the endpoint does not reveal which addresses exist.
    pub fn request_password_reset(&mut self, email: &String) -> (r: Result<
        Option<String>,
        ResetError,
    >)
        requires
            old(self).wf(),
        ensures
            final(self).wf(),
            ({
                let ui = first_match(old(self).users@, user_with_email(email@));
                match r {
                    Err(ResetError::InvalidEmail) => !email_accepted(email@) && *final(self)
                        == *old(self),
                    Err(ResetError::HashFailure) => {
                        &&& email_accepted(email@)
                        &&& ui >= 0
                        &&& *final(self) == *old(self)
                    },
                    Err(_) => false,
                    Ok(None) => email_accepted(email@) && ui < 0 && *final(self) == *old(self),
                    Ok(Some(token)) => {
                        &&& email_accepted(email@)
                        &&& ui >= 0
                        &&& token@.len() == RESET_TOKEN_LEN
                        &&& forall|k: int|
                            0 <= k < token@.len() ==> is_alphanumeric_char(#[trigger] token@[k])
                        &&& final(self).users@.len() == old(self).users@.len()
                        &&& forall|j: int|
                            0 <= j < old(self).users@.len() && j != ui
                                ==> #[trigger] final(self).users@[j] == old(self).users@[j]
                        &&& ({
                            let u = old(self).users@[ui];
                            let u2 = final(self).users@[ui];
                            &&& u2.password_reset_token is Some
                            &&& u2.password_reset_token->0@.len() == 60
                            &&& bcrypt_accepts(token@, u2.password_reset_token->0@)
                            &&& u2.id == u.id
                            &&& u2.username@ == u.username@
                            &&& u2.password@ == u.password@
                            &&& u2.email@ == u.email@
                            &&& u2.user_type == u.user_type
                            &&& crate::store::opt_str_eq(u2.stripe_customer, u.stripe_customer)
                            &&& u2.subscribed == u.subscribed
                            &&& crate::store::opt_str_eq(u2.stripe_account, u.stripe_account)
                            &&& u2.channel_onboarded == u.channel_onboarded
                            &&& crate::store::opt_str_eq(u2.avatar_filename, u.avatar_filename)
                            &&& crate::store::opt_str_eq(u2.cover_filename, u.cover_filename)
                            &&& u2.subscriptions_enabled == u.subscriptions_enabled
                            &&& crate::store::opt_str_eq(u2.display_name, u.display_name)
                            &&& crate::store::opt_str_eq(u2.bio, u.bio)
                        })
                        &&& final(self).tokens == old(self).tokens
                        &&& final(self).channels_tokens == old(self).channels_tokens
                        &&& final(self).token_transactions == old(self).token_transactions
                        &&& final(self).videos == old(self).videos
                        &&& final(self).tags == old(self).tags
                        &&& final(self).videos_tags == old(self).videos_tags
                        &&& final(self).video_plays == old(self).video_plays
                        &&& final(self).comments == old(self).comments
                        &&& final(self).comment_upvotes == old(self).comment_upvotes
                        &&& final(self).video_upvotes == old(self).video_upvotes
                        &&& final(self).next_id == old(self).next_id
                    },
                }
            }),
    {
        if !check_email(email.as_str()) {
            return Err(ResetError::InvalidEmail);
        }
        if self.user_index_by_email(email).is_none() {
            return Ok(None);
        }
        let token = random_alphanumeric(RESET_TOKEN_LEN);
        let token_hash = match hash_password(token.as_str(), BCRYPT_COST) {
            Some(h) => h,
            None => {
                return Err(ResetError::HashFailure);
            },
        };
        let stored = self.store_reset_token(email, token_hash);
        proof {
            assert(stored);
        }
        Ok(Some(token))
    }

    /// Finishes a password reset: the presented token must match the stored
    /// hash; the new password replaces the old one as a hash and the reset
    /// request is consumed.
    pub fn reset_password(&mut self, data: &ResetPasswordInfo) -> (r: Result<(), ResetError>)
        requires
            old(self).wf(),
        ensures
            final(self).wf(),
            ({
                let ui = first_match(old(self).users@, user_with_email(data.email@));
                match r {
                    Err(ResetError::InvalidEmail) => !email_accepted(data.email@) && *final(self)
                        == *old(self),
                    Err(ResetError::UserNotFound) => email_accepted(data.email@) && ui < 0
                        && *final(self) == *old(self),
                    Err(ResetError::NoResetRequested) => {
                        &&& email_accepted(data.email@)
                        &&& ui >= 0
                        &&& old(self).users@[ui].password_reset_token is None
                        &&& *final(self) == *old(self)
                    },
                    Err(ResetError::IncorrectToken) => {
                        &&& email_accepted(data.email@)
                        &&& ui >= 0
                        &&& old(self).users@[ui].password_reset_token is Some
                        &&& !bcrypt_accepts(
                            data.token@,
                            old(self).users@[ui].password_reset_token->0@,
                        )
                        &&& *final(self) == *old(self)
                    },
                    Err(ResetError::HashFailure) => {
                        &&& email_accepted(data.email@)
                        &&& ui >= 0
                        &&& old(self).users@[ui].password_reset_token is Some
                        &&& bcrypt_accepts(
                            data.token@,
                            old(self).users@[ui].password_reset_token->0@,
                        )
                        &&& *final(self) == *old(self)
                    },
                    Ok(()) => {
                        &&& email_accepted(data.email@)
                        &&& ui >= 0
                        &&& old(self).users@[ui].password_reset_token is Some
                        &&& bcrypt_accepts(
                            data.token@,
                            old(self).users@[ui].password_reset_token->0@,
                        )
                        &&& final(self).users@.len() == old(self).users@.len()
                        &&& forall|j: int|
                            0 <= j < old(self).users@.len() && j != ui
                                ==> #[trigger] final(self).users@[j] == old(self).users@[j]
                        &&& ({
                            let u = old(self).users@[ui];
                            let u2 = final(self).users@[ui];
                            &&& u2.password_reset_token is None
                            &&& u2.password@.len() == 60
                            &&& bcrypt_accepts(data.new_password@, u2.password@)
                            &&& u2.id == u.id
                            &&& u2.username@ == u.username@
                            &&& u2.email@ == u.email@
                            &&& u2.user_type == u.user_type
                            &&& crate::store::opt_str_eq(u2.stripe_customer, u.stripe_customer)
                            &&& u2.subscribed == u.subscribed
                            &&& crate::store::opt_str_eq(u2.stripe_account, u.stripe_account)
                            &&& u2.channel_onboarded == u.channel_onboarded
                            &&& crate::store::opt_str_eq(u2.avatar_filename, u.avatar_filename)
                            &&& crate::store::opt_str_eq(u2.cover_filename, u.cover_filename)
                            &&& u2.subscriptions_enabled == u.subscriptions_enabled
                            &&& crate::store::opt_str_eq(u2.display_name, u.display_name)
                            &&& crate::store::opt_str_eq(u2.bio, u.bio)
                        })
                        &&& final(self).tokens == old(self).tokens
                        &&& final(self).channels_tokens == old(self).channels_tokens
                        &&& final(self).token_transactions == old(self).token_transactions
                        &&& final(self).videos == old(self).videos
                        &&& final(self).tags == old(self).tags
                        &&& final(self).videos_tags == old(self).videos_tags
                        &&& final(self).video_plays == old(self).video_plays
                        &&& final(self).comments == old(self).comments
                        &&& final(self).comment_upvotes == old(self).comment_upvotes
                        &&& final(self).video_upvotes == old(self).video_upvotes
                        &&& final(self).next_id == old(self).next_id
                    },
                }
            }),
    {
        if !check_email(data.email.as_str()) {
            return Err(ResetError::InvalidEmail);
        }
        let ui = match self.user_index_by_email(&data.email) {
            Some(ui) => ui,
            None => {
                return Err(ResetError::UserNotFound);
            },
        };
        let stored = match &self.users[ui].password_reset_token {
            Some(h) => h,
            None => {
                return Err(ResetError::NoResetRequested);
            },
        };
        if !verify_password(data.token.as_str(), stored.as_str()) {
            return Err(ResetError::IncorrectToken);
        }
        let new_hash = match hash_password(data.new_password.as_str(), BCRYPT_COST) {
            Some(h) => h,
            None => {
                return Err(ResetError::HashFailure);
            },
        };
        let applied = self.complete_password_reset(&data.email, new_hash);
        proof {
            assert(applied);
        }
        Ok(())
    }

    /// The payment processor's account-updated callback: once payouts are
    /// enabled for the account with this e-mail address, the channel is
    /// marked onboarded. Anything else is ignored.
    pub fn stripe_account_updated_hook(&mut self, body: &OnBoardCompleteWebhookBody)
        requires
            old(self).wf(),
        ensures
            final(self).wf(),
            ({
                let enabled = body.data.payouts_enabled == Some(true) && body.data.email is Some;
                let ui = if body.data.email is Some {
                    first_match(old(self).users@, user_with_email(body.data.email->0@))
                } else {
                    -1
                };
                &&& (enabled && ui >= 0) ==> ({
                    &&& final(self).users@.len() == old(self).users@.len()
                    &&& forall|j: int|
                        0 <= j < old(self).users@.len() && j != ui
                            ==> #[trigger] final(self).users@[j] == old(self).users@[j]
                    &&& ({
                        let u = old(self).users@[ui];
                        let u2 = final(self).users@[ui];
                        &&& u2.channel_onboarded
                        &&& u2.id == u.id
                        &&& u2.username@ == u.username@
                        &&& u2.password@ == u.password@
                        &&& u2.email@ == u.email@
                        &&& crate::store::opt_str_eq(
                            u2.password_reset_token,
                            u.password_reset_token,
                        )
                        &&& u2.user_type == u.user_type
                        &&& crate::store::opt_str_eq(u2.stripe_customer, u.stripe_customer)
                        &&& u2.subscribed == u.subscribed
                        &&& crate::store::opt_str_eq(u2.stripe_account, u.stripe_account)
                        &&& crate::store::opt_str_eq(u2.avatar_filename, u.avatar_filename)
                        &&& crate::store::opt_str_eq(u2.cover_filename, u.cover_filename)
                        &&& u2.subscriptions_enabled == u.subscriptions_enabled
                        &&& crate::store::opt_str_eq(u2.display_name, u.display_name)
                        &&& crate::store::opt_str_eq(u2.bio, u.bio)
                    })
                    &&& final(self).tokens == old(self).tokens
                    &&& final(self).channels_tokens == old(self).channels_tokens
                    &&& final(self).token_transactions == old(self).token_transactions
                    &&& final(self).videos == old(self).videos
                    &&& final(self).tags == old(self).tags
                    &&& final(self).videos_tags == old(self).videos_tags
                    &&& final(self).video_plays == old(self).video_plays
                    &&& final(self).comments == old(self).comments
                    &&& final(self).comment_upvotes == old(self).comment_upvotes
                    &&& final(self).video_upvotes == old(self).video_upvotes
                    &&& final(self).next_id == old(self).next_id
                })
                &&& !(enabled && ui >= 0) ==> *final(self) == *old(self)
            }),
    {
        let email = match &body.data.email {
            Some(e) => e,
            None => {
                return ;
            },
        };
        let enabled = match body.data.payouts_enabled {
            Some(e) => e,
            None => {
                return ;
            },
        };
        if !enabled {
            return ;
        }
        let ui = match self.user_index_by_email(email) {
            Some(ui) => ui,
            None => {
                return ;
            },
        };
        let u = &self.users[ui];
        let updated = User {
            id: u.id,
            username: u.username.clone(),
            password: u.password.clone(),
            email: u.email.clone(),
            password_reset_token: crate::store::clone_opt_string(&u.password_reset_token),
            user_type: u.user_type,
            stripe_customer: crate::store::clone_opt_string(&u.stripe_customer),
            subscribed: u.subscribed,
            stripe_account: crate::store::clone_opt_string(&u.stripe_account),
            channel_onboarded: true,
            avatar_filename: crate::store::clone_opt_string(&u.avatar_filename),
            cover_filename: crate::store::clone_opt_string(&u.cover_filename),
            subscriptions_enabled: u.subscriptions_enabled,
            display_name: crate::store::clone_opt_string(&u.display_name),
            bio: crate::store::clone_opt_string(&u.bio),
        };
        self.users[ui] = updated;
    }

    /// Whether the calling channel has completed payment onboarding; `None`
    /// when the account does not exist.
    pub fn is_channel_onboarded(&self, user_id: i32) -> (r: Option<bool>)
        ensures
            ({
                let ui = first_match(self.users@, crate::store::user_with_id(user_id));
                match r {
                    Some(b) => ui >= 0 && b == self.users@[ui].channel_onboarded,
                    None => ui < 0,
                }
            }),
    {
        match self.user_index(user_id) {
            Some(ui) => Some(self.users[ui].channel_onboarded),
            None => None,
        }
    }
}

/// A character the reset-token alphabet allows: an ASCII letter or digit.
pub open spec fn is_alphanumeric_char(c: char) -> bool {
    let u = c as u32;
    (48 <= u <= 57) || (65 <= u <= 90) || (97 <= u <= 122)
}

/// Whether the password hasher accepts `password` against the stored hash
/// `hashed`; a malformed hash counts as a mismatch.
pub uninterp spec fn bcrypt_accepts(password: Seq<char>, hashed: Seq<char>) -> bool;

/// Relies on bcrypt::verify: the outcome is a function of password and hash
/// alone; an error (malformed stored hash) is treated as a mismatch.
#[verifier::external_body]
pub(crate) fn verify_password(password: &str, hashed: &str) -> (r: bool)
    ensures
        r == bcrypt_accepts(password@, hashed@),
{
    bcrypt::verify(password, hashed).unwrap_or(false)
}

/// Relies on bcrypt::hash: each call salts freshly from OS randomness, so
/// the result is unpredictable; on success it is the 60-character hash
/// string, and it verifies against the hashed password, since bcrypt::verify
/// recomputes with the salt and cost it parses back out of the hash (both
/// sides truncate the password at 72 bytes the same way). `None` when
/// hashing failed (an invalid cost, or no randomness).
#[verifier::external_body]
pub(crate) fn hash_password(password: &str, cost: u32) -> (r: Option<String>)
    ensures
        r is Some ==> r->0@.len() == 60,
        r is Some ==> bcrypt_accepts(password@, r->0@),
{
    bcrypt::hash(password, cost).ok()
}

/// Whether the e-mail validator accepts this address. An empty string is
/// never accepted.
pub uninterp spec fn email_accepted(address: Seq<char>) -> bool;

/// Relies on validator's ValidateEmail for &str: the outcome is a function
/// of the string alone; the empty string fails its first check.
#[verifier::external_body]
pub(crate) fn check_email(address: &str) -> (r: bool)
    ensures
        r == email_accepted(address@),
        address@.len() == 0 ==> r == false,
{
    validator::ValidateEmail::validate_email(&address)
}

/// Relies on rand's thread rng sampling the Alphanumeric distribution: every
/// sampled character is an ASCII letter or digit and exactly `len` are
/// taken. Which characters come out is random and left unspecified.
#[verifier::external_body]
pub(crate) fn random_alphanumeric(len: usize) -> (r: String)
    ensures
        r@.len() == len,
        forall|k: int| 0 <= k < r@.len() ==> is_alphanumeric_char(#[trigger] r@[k]),
{
    rand::distr::SampleString::sample_string(&rand::distr::Alphanumeric, &mut rand::rng(), len)
}

} // verus!
