//! User profiles: the public profile view, the channel directory search,
//! and the profile update route (password change, bio, display name,
//! subscription flag), plus the setters the outer layer calls after it has
//! stored an uploaded image or created a payment account.

use vstd::prelude::*;

use crate::auth::{bcrypt_accepts, hash_password, verify_password};
use crate::models::{SafeUser, User, UserType};
use crate::query::{first_match, lemma_first_match_at, lemma_first_match_none};
use crate::store::{
    clone_opt_string, get_safe_user_fields, opt_str_eq, safe_user_matches, user_with_id, Store,
};
use crate::ranking::{lemma_permutation_index, sort_pairs_desc};
use crate::text::{spec_contains_str, str_contains};
use crate::tokens::spec_channel_token_count;

verus! {

/// Path parameter of the profile view.
#[derive(Clone, Copy, Debug)]
pub struct GetUserParams {
    pub user_id: i32,
}

/// The optional name filter of the channel directory.
#[derive(Debug)]
pub struct GetUsersBody {
    pub name: Option<String>,
}

/// The optional profile changes of one update request.
#[derive(Debug)]
pub struct UpdateChannelData {
    pub disable_subscriptions: Option<bool>,
    pub bio: Option<String>,
    pub display_name: Option<String>,
    pub current_password: Option<String>,
    pub new_password: Option<String>,
}

/// Why a profile update was refused.
#[derive(Clone, Copy, PartialEq, Eq, Structural, Debug)]
pub enum UpdateUserError {
    /// The account does not exist but a password change was requested.
    UserMissing,
    /// The presented current password does not match.
    IncorrectPassword,
    /// A password change was requested without a new password.
    MissingNewPassword,
    /// The password hasher failed; nothing was stored.
    HashFailure,
}

/// Predicate picking the channels the directory lists under an optional
/// name filter: the query matches the username or the display name.
pub open spec fn listed_channel(name: Option<Seq<char>>) -> spec_fn(User) -> bool {
    |u: User|
        {
            &&& u.user_type == UserType::Channel
            &&& match name {
                None => true,
                Some(q) => spec_contains_str(u.username@, q) || (u.display_name is Some
                    && spec_contains_str(u.display_name->0@, q)),
            }
        }
}

impl Store {
    /// The public profile of the user with this id, if any.
    pub fn get_user(&self, user_id: i32) -> (r: Option<SafeUser>)
        ensures
            ({
                let ui = first_match(self.users@, user_with_id(user_id));
                match r {
                    Some(rec) => ui >= 0 && safe_user_matches(
                        rec,
                        self.users@[ui],
                        spec_channel_token_count(self.channels_tokens@, user_id) as u64,
                    ),
                    None => ui < 0,
                }
            }),
    {
        match self.user_index(user_id) {
            Some(ui) => {
                let subscribers = self.count_channel_tokens(user_id);
                Some(get_safe_user_fields(&self.users[ui], subscribers))
            },
            None => None,
        }
    }

    /// The channel directory: every channel whose username or display name
    /// matches the optional filter, in table order, as public profiles.
    pub fn get_users(&self, body: &GetUsersBody) -> (r: Vec<SafeUser>)
        ensures
            ({
                let q = match body.name {
                    Some(n) => Some(n@),
                    None => None,
                };
                let picked = self.users@.filter(listed_channel(q));
                &&& r@.len() == picked.len()
                &&& forall|k: int|
                    0 <= k < picked.len() ==> safe_user_matches(
                        #[trigger] r@[k],
                        picked[k],
                        spec_channel_token_count(self.channels_tokens@, picked[k].id) as u64,
                    )
            }),
    {
        let ghost q: Option<Seq<char>> = match &body.name {
            Some(n) => Some(n@),
            None => None,
        };
        let ghost pred = listed_channel(q);
        let n: usize = self.users.len();
        let mut r: Vec<SafeUser> = Vec::new();
        let mut i: usize = 0;
        proof {
            assert(self.users@.take(0) =~= Seq::<User>::empty());
            assert(Seq::<User>::empty().filter(pred) =~= Seq::<User>::empty()) by {
                reveal(Seq::filter);
            }
        }
        while i < n
            invariant
                i <= n,
                n == self.users@.len(),
                q == (match body.name {
                    Some(n2) => Some(n2@),
                    None => None,
                }),
                pred == listed_channel(q),
                r@.len() == self.users@.take(i as int).filter(pred).len(),
                forall|k: int|
                    0 <= k < r@.len() ==> safe_user_matches(
                        #[trigger] r@[k],
                        self.users@.take(i as int).filter(pred)[k],
                        spec_channel_token_count(
                            self.channels_tokens@,
                            self.users@.take(i as int).filter(pred)[k].id,
                        ) as u64,
                    ),
            decreases n - i,
        {
            proof {
                let pre = self.users@.take(i as int);
                let x = self.users@[i as int];
                assert(self.users@.take(i + 1) == pre.push(x));
                pre.lemma_filter_push(x, pred);
            }
            let is_channel = matches!(self.users[i].user_type, UserType::Channel);
            if is_channel {
                let name_matches = match &body.name {
                    None => true,
                    Some(query) => {
                        let in_username = str_contains(self.users[i].username.as_str(), query.as_str());
                        let in_display = match &self.users[i].display_name {
                            Some(d) => str_contains(d.as_str(), query.as_str()),
                            None => false,
                        };
                        in_username || in_display
                    },
                };
                if name_matches {
                    let subscribers = self.count_channel_tokens(self.users[i].id);
                    let rec = get_safe_user_fields(&self.users[i], subscribers);
                    r.push(rec);
                }
            }
            i = i + 1;
        }
        proof {
            assert(self.users@.take(n as int) =~= self.users@);
        }
        r
    }

    /// Applies a profile update for `user_id` with the replacement password
    /// already hashed: the current password is verified first, then bio,
    /// subscription flag, and display name are applied. A failed password
    /// check applies nothing, and nothing here can fail for any other
    /// reason.
    pub fn update_user_with_hash(
        &mut self,
        user_id: i32,
        data: &UpdateChannelData,
        new_password_hash: Option<String>,
    ) -> (r: Result<(), UpdateUserError>)
        requires
            old(self).wf(),
            (data.current_password is Some && data.new_password is Some)
                ==> new_password_hash is Some,
        ensures
            final(self).wf(),
            ({
                let ui = first_match(old(self).users@, user_with_id(user_id));
                match r {
                    Err(UpdateUserError::UserMissing) => {
                        &&& ui < 0
                        &&& data.current_password is Some
                        &&& *final(self) == *old(self)
                    },
                    Err(UpdateUserError::IncorrectPassword) => {
                        &&& ui >= 0
                        &&& data.current_password is Some
                        &&& !bcrypt_accepts(
                            data.current_password->0@,
                            old(self).users@[ui].password@,
                        )
                        &&& *final(self) == *old(self)
                    },
                    Err(UpdateUserError::MissingNewPassword) => {
                        &&& ui >= 0
                        &&& data.current_password is Some
                        &&& bcrypt_accepts(
                            data.current_password->0@,
                            old(self).users@[ui].password@,
                        )
                        &&& data.new_password is None
                        &&& *final(self) == *old(self)
                    },
                    Err(UpdateUserError::HashFailure) => false,
                    Ok(()) => {
                        &&& (ui < 0 ==> (data.current_password is None && *final(self) == *old(
                            self,
                        )))
                        &&& (ui >= 0 ==> ({
                            let u = old(self).users@[ui];
                            let u2 = final(self).users@[ui];
                            &&& (data.current_password is Some ==> (bcrypt_accepts(
                                data.current_password->0@,
                                u.password@,
                            ) && data.new_password is Some && u2.password@
                                == new_password_hash->0@))
                            &&& (data.current_password is None ==> u2.password@ == u.password@)
                            &&& (data.bio is Some ==> opt_str_eq(u2.bio, data.bio))
                            &&& (data.bio is None ==> opt_str_eq(u2.bio, u.bio))
                            &&& u2.subscriptions_enabled == (match data.disable_subscriptions {
                                Some(ds) => ds,
                                None => u.subscriptions_enabled,
                            })
                            &&& (data.display_name is Some ==> opt_str_eq(
                                u2.display_name,
                                data.display_name,
                            ))
                            &&& (data.display_name is None ==> opt_str_eq(
                                u2.display_name,
                                u.display_name,
                            ))
                            &&& u2.id == u.id
                            &&& u2.username@ == u.username@
                            &&& u2.email@ == u.email@
                            &&& opt_str_eq(u2.password_reset_token, u.password_reset_token)
                            &&& u2.user_type == u.user_type
                            &&& opt_str_eq(u2.stripe_customer, u.stripe_customer)
                            &&& u2.subscribed == u.subscribed
                            &&& opt_str_eq(u2.stripe_account, u.stripe_account)
                            &&& u2.channel_onboarded == u.channel_onboarded
                            &&& opt_str_eq(u2.avatar_filename, u.avatar_filename)
                            &&& opt_str_eq(u2.cover_filename, u.cover_filename)
                            &&& final(self).users@.len() == old(self).users@.len()
                            &&& forall|j: int|
                                0 <= j < old(self).users@.len() && j != ui
                                    ==> #[trigger] final(self).users@[j] == old(self).users@[j]
                        }))
                        &&& final(self).tokens == old(self).tokens
                        &&& final(self).channels_tokens == old(self).channels_tokens
                        &&& final(self).token_transactions == old(self).token_transactions
                        &&& final(self).videos == old(self).videos
                        &&& final(self).tags == old(self).tags
                        &&& final(self).videos_tags == old(self).videos_tags
                        &&& final(self).video_plays == old(self).video_plays
                        &&& final(self).comments == old(self).comments
                        &&& final(self).comment_upvotes == old(self).comment_upvotes
                        &&& final(self).video_upvotes == old(self).video_upvotes
                        &&& final(self).next_id == old(self).next_id
                    },
                }
            }),
    {
        let ui = match self.user_index(user_id) {
            Some(ui) => ui,
            None => {
                if self.current_password_given(data) {
                    return Err(UpdateUserError::UserMissing);
                }
                return Ok(());
            },
        };
        let new_password: Option<String> = match &data.current_password {
            Some(cp) => {
                if !verify_password(cp.as_str(), self.users[ui].password.as_str()) {
                    return Err(UpdateUserError::IncorrectPassword);
                }
                match &data.new_password {
                    None => {
                        return Err(UpdateUserError::MissingNewPassword);
                    },
                    Some(_) => {
                        match new_password_hash {
                            Some(h) => Some(h),
                            None => {
                                return Err(UpdateUserError::HashFailure);
                            },
                        }
                    },
                }
            },
            None => None,
        };
        let u = &self.users[ui];
        let updated = User {
            id: u.id,
            username: u.username.clone(),
            password: match new_password {
                Some(h) => h,
                None => u.password.clone(),
            },
            email: u.email.clone(),
            password_reset_token: clone_opt_string(&u.password_reset_token),
            user_type: u.user_type,
            stripe_customer: clone_opt_string(&u.stripe_customer),
            subscribed: u.subscribed,
            stripe_account: clone_opt_string(&u.stripe_account),
            channel_onboarded: u.channel_onboarded,
            avatar_filename: clone_opt_string(&u.avatar_filename),
            cover_filename: clone_opt_string(&u.cover_filename),
            subscriptions_enabled: match data.disable_subscriptions {
                Some(ds) => ds,
                None => u.subscriptions_enabled,
            },
            display_name: match &data.display_name {
                Some(d) => Some(d.clone()),
                None => clone_opt_string(&u.display_name),
            },
            bio: match &data.bio {
                Some(b) => Some(b.clone()),
                None => clone_opt_string(&u.bio),
            },
        };
        self.users[ui] = updated;
        Ok(())
    }

    /// Applies a profile update for `user_id`: like
    /// [`Store::update_user_with_hash`], with the replacement password
    /// hashed here first. Hashing salts from OS randomness, so its rare
    /// failure is surfaced as [`UpdateUserError::HashFailure`] with nothing
    /// applied.
    pub fn update_user(&mut self, user_id: i32, data: &UpdateChannelData) -> (r: Result<
        (),
        UpdateUserError,
    >)
        requires
            old(self).wf(),
        ensures
            final(self).wf(),
            ({
                let ui = first_match(old(self).users@, user_with_id(user_id));
                match r {
                    Err(UpdateUserError::UserMissing) => {
                        &&& ui < 0
                        &&& data.current_password is Some
                        &&& *final(self) == *old(self)
                    },
                    Err(UpdateUserError::IncorrectPassword) => {
                        &&& ui >= 0
                        &&& data.current_password is Some
                        &&& !bcrypt_accepts(
                            data.current_password->0@,
                            old(self).users@[ui].password@,
                        )
                        &&& *final(self) == *old(self)
                    },
                    Err(UpdateUserError::MissingNewPassword) => {
                        &&& ui >= 0
                        &&& data.current_password is Some
                        &&& bcrypt_accepts(
                            data.current_password->0@,
                            old(self).users@[ui].password@,
                        )
                        &&& data.new_password is None
                        &&& *final(self) == *old(self)
                    },
                    Err(UpdateUserError::HashFailure) => {
                        &&& ui >= 0
                        &&& data.current_password is Some
                        &&& bcrypt_accepts(
                            data.current_password->0@,
                            old(self).users@[ui].password@,
                        )
                        &&& data.new_password is Some
                        &&& *final(self) == *old(self)
                    },
                    Ok(()) => {
                        &&& (ui < 0 ==> (data.current_password is None && *final(self) == *old(
                            self,
                        )))
                        &&& (ui >= 0 ==> ({
                            let u = old(self).users@[ui];
                            let u2 = final(self).users@[ui];
                            &&& (data.current_password is Some ==> (bcrypt_accepts(
                                data.current_password->0@,
                                u.password@,
                            ) && data.new_password is Some && u2.password@.len() == 60
                                && bcrypt_accepts(data.new_password->0@, u2.password@)))
                            &&& (data.current_password is None ==> u2.password@ == u.password@)
                            &&& (data.bio is Some ==> opt_str_eq(u2.bio, data.bio))
                            &&& (data.bio is None ==> opt_str_eq(u2.bio, u.bio))
                            &&& u2.subscriptions_enabled == (match data.disable_subscriptions {
                                Some(ds) => ds,
                                None => u.subscriptions_enabled,
                            })
                            &&& (data.display_name is Some ==> opt_str_eq(
                                u2.display_name,
                                data.display_name,
                            ))
                            &&& (data.display_name is None ==> opt_str_eq(
                                u2.display_name,
                                u.display_name,
                            ))
                            &&& u2.id == u.id
                            &&& u2.username@ == u.username@
                            &&& u2.email@ == u.email@
                            &&& opt_str_eq(u2.password_reset_token, u.password_reset_token)
                            &&& u2.user_type == u.user_type
                            &&& opt_str_eq(u2.stripe_customer, u.stripe_customer)
                            &&& u2.subscribed == u.subscribed
                            &&& opt_str_eq(u2.stripe_account, u.stripe_account)
                            &&& u2.channel_onboarded == u.channel_onboarded
                            &&& opt_str_eq(u2.avatar_filename, u.avatar_filename)
                            &&& opt_str_eq(u2.cover_filename, u.cover_filename)
                            &&& final(self).users@.len() == old(self).users@.len()
                            &&& forall|j: int|
                                0 <= j < old(self).users@.len() && j != ui
                                    ==> #[trigger] final(self).users@[j] == old(self).users@[j]
                        }))
                        &&& final(self).tokens == old(self).tokens
                        &&& final(self).channels_tokens == old(self).channels_tokens
                        &&& final(self).token_transactions == old(self).token_transactions
                        &&& final(self).videos == old(self).videos
                        &&& final(self).tags == old(self).tags
                        &&& final(self).videos_tags == old(self).videos_tags
                        &&& final(self).video_plays == old(self).video_plays
                        &&& final(self).comments == old(self).comments
                        &&& final(self).comment_upvotes == old(self).comment_upvotes
                        &&& final(self).video_upvotes == old(self).video_upvotes
                        &&& final(self).next_id == old(self).next_id
                    },
                }
            }),
    {
        // verify the current password before paying for a hash
        let new_password_hash: Option<String> = match &data.current_password {
            None => None,
            Some(cp) => {
                let ui = match self.user_index(user_id) {
                    Some(ui) => ui,
                    None => {
                        return Err(UpdateUserError::UserMissing);
                    },
                };
                if !verify_password(cp.as_str(), self.users[ui].password.as_str()) {
                    return Err(UpdateUserError::IncorrectPassword);
                }
                match &data.new_password {
                    None => {
                        return Err(UpdateUserError::MissingNewPassword);
                    },
                    Some(np) => {
                        match hash_password(np.as_str(), crate::BCRYPT_COST) {
                            Some(h) => Some(h),
                            None => {
                                return Err(UpdateUserError::HashFailure);
                            },
                        }
                    },
                }
            },
        };
        self.update_user_with_hash(user_id, data, new_password_hash)
    }

    /// Whether a password change is part of this update.
    fn current_password_given(&self, data: &UpdateChannelData) -> (r: bool)
        ensures
            r == (data.current_password is Some),
    {
        data.current_password.is_some()
    }

    /// Stores the filename of a newly uploaded avatar on the user's row, as
    /// the outer layer reports it after the blob store accepted the image.
    pub fn set_avatar_filename(&mut self, user_id: i32, filename: String)
        requires
            old(self).wf(),
        ensures
            final(self).wf(),
            ({
                let ui = first_match(old(self).users@, user_with_id(user_id));
                &&& ui < 0 ==> *final(self) == *old(self)
                &&& ui >= 0 ==> ({
                    &&& final(self).users@.len() == old(self).users@.len()
                    &&& forall|j: int|
                        0 <= j < old(self).users@.len() && j != ui
                            ==> #[trigger] final(self).users@[j] == old(self).users@[j]
                    &&& final(self).users@[ui].avatar_filename is Some
                    &&& final(self).users@[ui].avatar_filename->0@ == filename@
                    &&& final(self).users@[ui] == (User {
                        avatar_filename: final(self).users@[ui].avatar_filename,
                        ..old(self).users@[ui]
                    })
                })
                &&& final(self).tokens == old(self).tokens
                &&& final(self).channels_tokens == old(self).channels_tokens
                &&& final(self).token_transactions == old(self).token_transactions
                &&& final(self).videos == old(self).videos
                &&& final(self).tags == old(self).tags
                &&& final(self).videos_tags == old(self).videos_tags
                &&& final(self).video_plays == old(self).video_plays
                &&& final(self).comments == old(self).comments
                &&& final(self).comment_upvotes == old(self).comment_upvotes
                &&& final(self).video_upvotes == old(self).video_upvotes
                &&& final(self).next_id == old(self).next_id
            }),
    {
        let ui = match self.user_index(user_id) {
            Some(ui) => ui,
            None => {
                return ;
            },
        };
        let u = &self.users[ui];
        let updated = User {
            id: u.id,
            username: u.username.clone(),
            password: u.password.clone(),
            email: u.email.clone(),
            password_reset_token: clone_opt_string(&u.password_reset_token),
            user_type: u.user_type,
            stripe_customer: clone_opt_string(&u.stripe_customer),
            subscribed: u.subscribed,
            stripe_account: clone_opt_string(&u.stripe_account),
            channel_onboarded: u.channel_onboarded,
            avatar_filename: Some(filename),
            cover_filename: clone_opt_string(&u.cover_filename),
            subscriptions_enabled: u.subscriptions_enabled,
            display_name: clone_opt_string(&u.display_name),
            bio: clone_opt_string(&u.bio),
        };
        self.users[ui] = updated;
    }

    /// Stores the filename of a newly uploaded cover image, like
    /// [`Store::set_avatar_filename`].
    pub fn set_cover_filename(&mut self, user_id: i32, filename: String)
        requires
            old(self).wf(),
        ensures
            final(self).wf(),
            ({
                let ui = first_match(old(self).users@, user_with_id(user_id));
                &&& ui < 0 ==> *final(self) == *old(self)
                &&& ui >= 0 ==> ({
                    &&& final(self).users@.len() == old(self).users@.len()
                    &&& forall|j: int|
                        0 <= j < old(self).users@.len() && j != ui
                            ==> #[trigger] final(self).users@[j] == old(self).users@[j]
                    &&& final(self).users@[ui].cover_filename is Some
                    &&& final(self).users@[ui].cover_filename->0@ == filename@
                    &&& final(self).users@[ui] == (User {
                        cover_filename: final(self).users@[ui].cover_filename,
                        ..old(self).users@[ui]
                    })
                })
                &&& final(self).tokens == old(self).tokens
                &&& final(self).channels_tokens == old(self).channels_tokens
                &&& final(self).token_transactions == old(self).token_transactions
                &&& final(self).videos == old(self).videos
                &&& final(self).tags == old(self).tags
                &&& final(self).videos_tags == old(self).videos_tags
                &&& final(self).video_plays == old(self).video_plays
                &&& final(self).comments == old(self).comments
                &&& final(self).comment_upvotes == old(self).comment_upvotes
                &&& final(self).video_upvotes == old(self).video_upvotes
                &&& final(self).next_id == old(self).next_id
            }),
    {
        let ui = match self.user_index(user_id) {
            Some(ui) => ui,
            None => {
                return ;
            },
        };
        let u = &self.users[ui];
        let updated = User {
            id: u.id,
            username: u.username.clone(),
            password: u.password.clone(),
            email: u.email.clone(),
            password_reset_token: clone_opt_string(&u.password_reset_token),
            user_type: u.user_type,
            stripe_customer: clone_opt_string(&u.stripe_customer),
            subscribed: u.subscribed,
            stripe_account: clone_opt_string(&u.stripe_account),
            channel_onboarded: u.channel_onboarded,
            avatar_filename: clone_opt_string(&u.avatar_filename),
            cover_filename: Some(filename),
            subscriptions_enabled: u.subscriptions_enabled,
            display_name: clone_opt_string(&u.display_name),
            bio: clone_opt_string(&u.bio),
        };
        self.users[ui] = updated;
    }

    /// Stores the payment-customer reference the outer layer received when
    /// it created the subscriber with the payment processor.
    pub fn set_stripe_customer(&mut self, user_id: i32, customer: String)
        requires
            old(self).wf(),
        ensures
            final(self).wf(),
            ({
                let ui = first_match(old(self).users@, user_with_id(user_id));
                &&& ui < 0 ==> *final(self) == *old(self)
                &&& ui >= 0 ==> ({
                    &&& final(self).users@.len() == old(self).users@.len()
                    &&& forall|j: int|
                        0 <= j < old(self).users@.len() && j != ui
                            ==> #[trigger] final(self).users@[j] == old(self).users@[j]
                    &&& final(self).users@[ui].stripe_customer is Some
                    &&& final(self).users@[ui].stripe_customer->0@ == customer@
                    &&& final(self).users@[ui] == (User {
                        stripe_customer: final(self).users@[ui].stripe_customer,
                        ..old(self).users@[ui]
                    })
                })
                &&& final(self).tokens == old(self).tokens
                &&& final(self).channels_tokens == old(self).channels_tokens
                &&& final(self).token_transactions == old(self).token_transactions
                &&& final(self).videos == old(self).videos
                &&& final(self).tags == old(self).tags
                &&& final(self).videos_tags == old(self).videos_tags
                &&& final(self).video_plays == old(self).video_plays
                &&& final(self).comments == old(self).comments
                &&& final(self).comment_upvotes == old(self).comment_upvotes
                &&& final(self).video_upvotes == old(self).video_upvotes
                &&& final(self).next_id == old(self).next_id
            }),
    {
        let ui = match self.user_index(user_id) {
            Some(ui) => ui,
            None => {
                return ;
            },
        };
        let u = &self.users[ui];
        let updated = User {
            id: u.id,
            username: u.username.clone(),
            password: u.password.clone(),
            email: u.email.clone(),
            password_reset_token: clone_opt_string(&u.password_reset_token),
            user_type: u.user_type,
            stripe_customer: Some(customer),
            subscribed: u.subscribed,
            stripe_account: clone_opt_string(&u.stripe_account),
            channel_onboarded: u.channel_onboarded,
            avatar_filename: clone_opt_string(&u.avatar_filename),
            cover_filename: clone_opt_string(&u.cover_filename),
            subscriptions_enabled: u.subscriptions_enabled,
            display_name: clone_opt_string(&u.display_name),
            bio: clone_opt_string(&u.bio),
        };
        self.users[ui] = updated;
    }

    /// Stores the payment-account reference the outer layer received when
    /// it created the channel with the payment processor.
    pub fn set_stripe_account(&mut self, user_id: i32, account: String)
        requires
            old(self).wf(),
        ensures
            final(self).wf(),
            ({
                let ui = first_match(old(self).users@, user_with_id(user_id));
                &&& ui < 0 ==> *final(self) == *old(self)
                &&& ui >= 0 ==> ({
                    &&& final(self).users@.len() == old(self).users@.len()
                    &&& forall|j: int|
                        0 <= j < old(self).users@.len() && j != ui
                            ==> #[trigger] final(self).users@[j] == old(self).users@[j]
                    &&& final(self).users@[ui].stripe_account is Some
                    &&& final(self).users@[ui].stripe_account->0@ == account@
                    &&& final(self).users@[ui] == (User {
                        stripe_account: final(self).users@[ui].stripe_account,
                        ..old(self).users@[ui]
                    })
                })
                &&& final(self).tokens == old(self).tokens
                &&& final(self).channels_tokens == old(self).channels_tokens
                &&& final(self).token_transactions == old(self).token_transactions
                &&& final(self).videos == old(self).videos
                &&& final(self).tags == old(self).tags
                &&& final(self).videos_tags == old(self).videos_tags
                &&& final(self).video_plays == old(self).video_plays
                &&& final(self).comments == old(self).comments
                &&& final(self).comment_upvotes == old(self).comment_upvotes
                &&& final(self).video_upvotes == old(self).video_upvotes
                &&& final(self).next_id == old(self).next_id
            }),
    {
        let ui = match self.user_index(user_id) {
            Some(ui) => ui,
            None => {
                return ;
            },
        };
        let u = &self.users[ui];
        let updated = User {
            id: u.id,
            username: u.username.clone(),
            password: u.password.clone(),
            email: u.email.clone(),
            password_reset_token: clone_opt_string(&u.password_reset_token),
            user_type: u.user_type,
            stripe_customer: clone_opt_string(&u.stripe_customer),
            subscribed: u.subscribed,
            stripe_account: Some(account),
            channel_onboarded: u.channel_onboarded,
            avatar_filename: clone_opt_string(&u.avatar_filename),
            cover_filename: clone_opt_string(&u.cover_filename),
            subscriptions_enabled: u.subscriptions_enabled,
            display_name: clone_opt_string(&u.display_name),
            bio: clone_opt_string(&u.bio),
        };
        self.users[ui] = updated;
    }
}

/// Predicate picking the channel accounts.
pub open spec fn is_channel_row() -> spec_fn(User) -> bool {
    |u: User| u.user_type == UserType::Channel
}

/// Total plays over the videos of `channel`: one per (owned video, play of
/// it) pair, as the leaderboard join counts them.
pub open spec fn plays_of_channel(
    videos: Seq<crate::models::Video>,
    plays: Seq<crate::models::VideoPlay>,
    channel: i32,
) -> nat
    decreases videos.len(),
{
    if videos.len() == 0 {
        0
    } else {
        plays_of_channel(videos.drop_last(), plays, channel) + (if videos.last().user_id
            == channel {
            crate::videos::spec_play_count(plays, videos.last().id)
        } else {
            0
        })
    }
}

/// The pair count never exceeds one full cross product.
pub proof fn lemma_plays_of_channel_bound(
    videos: Seq<crate::models::Video>,
    plays: Seq<crate::models::VideoPlay>,
    channel: i32,
)
    ensures
        plays_of_channel(videos, plays, channel) <= videos.len() * plays.len(),
    decreases videos.len(),
{
    if videos.len() > 0 {
        lemma_plays_of_channel_bound(videos.drop_last(), plays, channel);
        plays.lemma_filter_len(crate::videos::play_of_video(videos.last().id));
        assert((videos.len() - 1) * plays.len() + plays.len() == videos.len() * plays.len())
            by (nonlinear_arith);
    }
}

/// What a leaderboard entry must carry, relative to the channel row it
/// stands for.
pub open spec fn top_channel_matches(
    rec: crate::models::TopChannel,
    u: User,
    s: Store,
) -> bool {
    &&& rec.id == u.id
    &&& rec.username@ == u.username@
    &&& rec.user_type == u.user_type
    &&& opt_str_eq(rec.avatar_filename, u.avatar_filename)
    &&& opt_str_eq(rec.cover_filename, u.cover_filename)
    &&& rec.subscriptions_enabled == u.subscriptions_enabled
    &&& opt_str_eq(rec.display_name, u.display_name)
    &&& opt_str_eq(rec.bio, u.bio)
    &&& rec.plays == plays_of_channel(s.videos@, s.video_plays@, u.id)
}

impl Store {
    /// Total plays over the videos of `channel`.
    pub fn count_channel_plays(&self, channel: i32) -> (r: u64)
        requires
            self.videos@.len() * self.video_plays@.len() <= u64::MAX,
        ensures
            r == plays_of_channel(self.videos@, self.video_plays@, channel),
    {
        let n: usize = self.videos.len();
        let mut total: u64 = 0;
        let mut i: usize = 0;
        proof {
            assert(self.videos@.take(0) =~= Seq::<crate::models::Video>::empty());
        }
        while i < n
            invariant
                i <= n,
                n == self.videos@.len(),
                self.videos@.len() * self.video_plays@.len() <= u64::MAX,
                total == plays_of_channel(
                    self.videos@.take(i as int),
                    self.video_plays@,
                    channel,
                ),
            decreases n - i,
        {
            proof {
                assert(self.videos@.take(i + 1).drop_last() =~= self.videos@.take(i as int));
                assert(self.videos@.take(i + 1).last() == self.videos@[i as int]);
                lemma_plays_of_channel_bound(
                    self.videos@.take(i + 1),
                    self.video_plays@,
                    channel,
                );
                vstd::arithmetic::mul::lemma_mul_inequality(
                    i + 1,
                    n as int,
                    self.video_plays@.len() as int,
                );
            }
            if self.videos[i].user_id == channel {
                let c = self.count_video_plays(self.videos[i].id);
                total = total + c;
            }
            i = i + 1;
        }
        proof {
            assert(self.videos@.take(n as int) =~= self.videos@);
        }
        total
    }

    /// The ten channels whose videos were played most, each with its total
    /// play count, most played first. Entries carry real channel rows with
    /// their exact counts, and no channel with a higher count than a shown
    /// one is left out.
    #[verifier::rlimit(50)]
    pub fn get_top_channels(&self) -> (r: Vec<crate::models::TopChannel>)
        requires
            self.videos@.len() * self.video_plays@.len() <= u64::MAX,
        ensures
            ({
                let channels = self.users@.filter(is_channel_row());
                r@.len() == (if channels.len() < crate::TOP_LIMIT {
                    channels.len() as int
                } else {
                    crate::TOP_LIMIT as int
                })
            }),
            forall|k1: int, k2: int|
                0 <= k1 < k2 < r@.len() ==> (#[trigger] r@[k1]).plays >= (#[trigger] r@[k2]).plays,
            forall|k: int|
                0 <= k < r@.len() ==> exists|t: int|
                    0 <= t < self.users@.len() && is_channel_row()(self.users@[t])
                        && top_channel_matches(#[trigger] r@[k], self.users@[t], *self),
            forall|t: int|
                0 <= t < self.users@.len() && is_channel_row()(#[trigger] self.users@[t])
                    && r@.len() > 0 && plays_of_channel(
                    self.videos@,
                    self.video_plays@,
                    self.users@[t].id,
                ) > r@[r@.len() - 1].plays ==> exists|k: int|
                    0 <= k < r@.len() && (#[trigger] r@[k]).id == self.users@[t].id,
    {
        let nusers: usize = self.users.len();
        let mut pairs: Vec<(usize, u64)> = Vec::new();
        let mut t: usize = 0;
        proof {
            assert(self.users@.take(0) =~= Seq::<User>::empty());
            assert(Seq::<User>::empty().filter(is_channel_row()) =~= Seq::<User>::empty()) by {
                reveal(Seq::filter);
            }
        }
        while t < nusers
            invariant
                t <= nusers,
                nusers == self.users@.len(),
                self.videos@.len() * self.video_plays@.len() <= u64::MAX,
                pairs@.len() == self.users@.take(t as int).filter(is_channel_row()).len(),
                forall|k: int|
                    0 <= k < pairs@.len() ==> ((#[trigger] pairs@[k]).0 < nusers && is_channel_row()(
                        self.users@[pairs@[k].0 as int],
                    ) && pairs@[k].1 == plays_of_channel(
                        self.videos@,
                        self.video_plays@,
                        self.users@[pairs@[k].0 as int].id,
                    )),
                forall|i2: int|
                    0 <= i2 < t && is_channel_row()(#[trigger] self.users@[i2]) ==> exists|k: int|
                        0 <= k < pairs@.len() && (#[trigger] pairs@[k]).0 == i2,
            decreases nusers - t,
        {
            proof {
                let pre = self.users@.take(t as int);
                let x = self.users@[t as int];
                assert(self.users@.take(t + 1) == pre.push(x));
                pre.lemma_filter_push(x, is_channel_row());
            }
            let is_channel = matches!(self.users[t].user_type, UserType::Channel);
            let ghost pairs_before = pairs@;
            if is_channel {
                let c = self.count_channel_plays(self.users[t].id);
                pairs.push((t, c));
            }
            t = t + 1;
            proof {
                assert forall|i2: int|
                    0 <= i2 < t && is_channel_row()(#[trigger] self.users@[i2]) implies exists|
                k: int|
                    0 <= k < pairs@.len() && (#[trigger] pairs@[k]).0 == i2 by {
                    if i2 < t - 1 {
                        let k = choose|k: int|
                            0 <= k < pairs_before.len() && (#[trigger] pairs_before[k]).0 == i2;
                        assert(pairs@[k].0 == i2);
                    } else {
                        assert(pairs@[pairs@.len() - 1].0 == i2);
                    }
                }
            }
        }
        proof {
            assert(self.users@.take(nusers as int) =~= self.users@);
        }
        let sorted = sort_pairs_desc(pairs);
        proof {
            assert forall|p: int| 0 <= p < sorted@.len() implies ((#[trigger] sorted@[p]).0
                < nusers && is_channel_row()(self.users@[sorted@[p].0 as int]) && sorted@[p].1
                == plays_of_channel(
                self.videos@,
                self.video_plays@,
                self.users@[sorted@[p].0 as int].id,
            )) by {
                lemma_permutation_index(sorted@, pairs@, p);
                let q = choose|q: int| 0 <= q < pairs@.len() && pairs@[q] == sorted@[p];
            }
        }
        let limit: usize = if sorted.len() < crate::TOP_LIMIT {
            sorted.len()
        } else {
            crate::TOP_LIMIT
        };
        let mut r: Vec<crate::models::TopChannel> = Vec::new();
        let mut k: usize = 0;
        while k < limit
            invariant
                k <= limit,
                limit <= sorted@.len(),
                nusers == self.users@.len(),
                forall|p: int|
                    0 <= p < sorted@.len() ==> ((#[trigger] sorted@[p]).0 < nusers
                        && is_channel_row()(self.users@[sorted@[p].0 as int]) && sorted@[p].1
                        == plays_of_channel(
                        self.videos@,
                        self.video_plays@,
                        self.users@[sorted@[p].0 as int].id,
                    )),
                r@.len() == k,
                forall|k2: int|
                    0 <= k2 < k ==> (top_channel_matches(
                        #[trigger] r@[k2],
                        self.users@[sorted@[k2].0 as int],
                        *self,
                    ) && r@[k2].plays == sorted@[k2].1),
            decreases limit - k,
        {
            let pair = sorted[k];
            let u = &self.users[pair.0];
            let rec = crate::models::TopChannel {
                id: u.id,
                username: u.username.clone(),
                user_type: u.user_type,
                avatar_filename: clone_opt_string(&u.avatar_filename),
                cover_filename: clone_opt_string(&u.cover_filename),
                subscriptions_enabled: u.subscriptions_enabled,
                display_name: clone_opt_string(&u.display_name),
                bio: clone_opt_string(&u.bio),
                plays: pair.1,
            };
            r.push(rec);
            k = k + 1;
        }
        proof {
            assert forall|t2: int|
                0 <= t2 < self.users@.len() && is_channel_row()(#[trigger] self.users@[t2])
                    && r@.len() > 0 && plays_of_channel(
                    self.videos@,
                    self.video_plays@,
                    self.users@[t2].id,
                ) > r@[r@.len() - 1].plays implies exists|k2: int|
                0 <= k2 < r@.len() && (#[trigger] r@[k2]).id == self.users@[t2].id by {
                let q = choose|q: int| 0 <= q < pairs@.len() && (#[trigger] pairs@[q]).0 == t2;
                lemma_permutation_index(pairs@, sorted@, q);
                let j = choose|j: int| 0 <= j < sorted@.len() && sorted@[j] == pairs@[q];
                if j >= limit {
                    assert(sorted@[j].1 <= sorted@[limit - 1].1);
                    assert(r@[limit - 1].plays == sorted@[limit - 1].1);
                    assert(false);
                } else {
                    assert(r@[j].id == self.users@[t2].id);
                }
            }
            assert forall|k2: int| 0 <= k2 < r@.len() implies exists|t2: int|
                0 <= t2 < self.users@.len() && is_channel_row()(self.users@[t2])
                    && top_channel_matches(#[trigger] r@[k2], self.users@[t2], *self) by {
                let t2 = sorted@[k2].0 as int;
                assert(0 <= t2 < self.users@.len() && is_channel_row()(self.users@[t2])
                    && top_channel_matches(r@[k2], self.users@[t2], *self));
            }
        }
        r
    }
}

} // verus!
