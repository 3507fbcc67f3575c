//! The persistence gateway: one in-memory table per entity, with the
//! well-formedness that every operation of the library preserves, and the
//! row lookups everything else is built on.

use vstd::prelude::*;

use crate::models::{SafeUser, Token, User};
use crate::query::{first_match, lemma_first_match_at, lemma_first_match_none};
use crate::MAX_ROWS;

verus! {

/// The whole persisted state, one `Vec` per table. `next_id` feeds every
/// table; a row keeps the id it was created with forever.
pub struct Store {
    pub users: Vec<User>,
    pub tokens: Vec<Token>,
    pub channels_tokens: Vec<crate::models::ChannelToken>,
    pub token_transactions: Vec<crate::models::TokenTransaction>,
    pub videos: Vec<crate::models::Video>,
    pub tags: Vec<crate::models::Tag>,
    pub videos_tags: Vec<crate::models::VideoTag>,
    pub video_plays: Vec<crate::models::VideoPlay>,
    pub comments: Vec<crate::models::Comment>,
    pub comment_upvotes: Vec<crate::models::CommentUpvote>,
    pub video_upvotes: Vec<crate::models::VideoUpvote>,
    pub next_id: i32,
}

/// Predicate picking the user row with the given id.
pub open spec fn user_with_id(id: i32) -> spec_fn(User) -> bool {
    |u: User| u.id == id
}

/// Predicate picking the user row with the given username.
pub open spec fn user_with_username(name: Seq<char>) -> spec_fn(User) -> bool {
    |u: User| u.username@ == name
}

/// Predicate picking the user row with the given e-mail address.
pub open spec fn user_with_email(email: Seq<char>) -> spec_fn(User) -> bool {
    |u: User| u.email@ == email
}

impl Store {
    /// Every row id was assigned from `next_id`, so ids of live rows never
    /// collide with ids of rows yet to come.
    pub open spec fn ids_below(self) -> bool {
        &&& forall|i: int|
            0 <= i < self.users@.len() ==> 0 <= (#[trigger] self.users@[i]).id < self.next_id
        &&& forall|i: int|
            0 <= i < self.tokens@.len() ==> 0 <= (#[trigger] self.tokens@[i]).id < self.next_id
        &&& forall|i: int|
            0 <= i < self.channels_tokens@.len() ==> 0 <= (#[trigger] self.channels_tokens@[i]).id
                < self.next_id
        &&& forall|i: int|
            0 <= i < self.token_transactions@.len() ==> 0 <= (
            #[trigger] self.token_transactions@[i]).id < self.next_id
        &&& forall|i: int|
            0 <= i < self.videos@.len() ==> 0 <= (#[trigger] self.videos@[i]).id < self.next_id
        &&& forall|i: int|
            0 <= i < self.tags@.len() ==> 0 <= (#[trigger] self.tags@[i]).id < self.next_id
        &&& forall|i: int|
            0 <= i < self.videos_tags@.len() ==> 0 <= (#[trigger] self.videos_tags@[i]).id
                < self.next_id
        &&& forall|i: int|
            0 <= i < self.video_plays@.len() ==> 0 <= (#[trigger] self.video_plays@[i]).id
                < self.next_id
        &&& forall|i: int|
            0 <= i < self.comments@.len() ==> 0 <= (#[trigger] self.comments@[i]).id < self.next_id
        &&& forall|i: int|
            0 <= i < self.comment_upvotes@.len() ==> 0 <= (#[trigger] self.comment_upvotes@[i]).id
                < self.next_id
        &&& forall|i: int|
            0 <= i < self.video_upvotes@.len() ==> 0 <= (#[trigger] self.video_upvotes@[i]).id
                < self.next_id
    }

    /// A token's `used` flag agrees with its `date_used` field.
    pub open spec fn tokens_consistent(self) -> bool {
        forall|i: int|
            0 <= i < self.tokens@.len() ==> ((#[trigger] self.tokens@[i]).used
                <==> self.tokens@[i].date_used is Some)
    }

    /// No two token rows share an id, so resolving the token a channel
    /// token consumed by its id is well-defined.
    pub open spec fn tokens_distinct(self) -> bool {
        forall|i: int, j: int|
            0 <= i < j < self.tokens@.len() ==> (#[trigger] self.tokens@[i]).id != (
            #[trigger] self.tokens@[j]).id
    }

    /// The two tables feeding ledger arithmetic stay small enough that every
    /// balance fits in `i64` and every conversion deposit fits in `u32`.
    pub open spec fn within_caps(self) -> bool {
        &&& self.token_transactions@.len() <= MAX_ROWS
        &&& self.channels_tokens@.len() <= MAX_ROWS
    }

    /// Well-formedness: established by [`Store::new`] and preserved by every
    /// operation of the library.
    pub open spec fn wf(self) -> bool {
        &&& 0 <= self.next_id
        &&& self.ids_below()
        &&& self.tokens_consistent()
        &&& self.tokens_distinct()
        &&& self.within_caps()
    }

    /// An empty store.
    pub fn new() -> (s: Store)
        ensures
            s.wf(),
            s.users@.len() == 0,
            s.tokens@.len() == 0,
            s.channels_tokens@.len() == 0,
            s.token_transactions@.len() == 0,
            s.videos@.len() == 0,
            s.tags@.len() == 0,
            s.videos_tags@.len() == 0,
            s.video_plays@.len() == 0,
            s.comments@.len() == 0,
            s.comment_upvotes@.len() == 0,
            s.video_upvotes@.len() == 0,
            s.next_id == 1,
    {
        Store {
            users: Vec::new(),
            tokens: Vec::new(),
            channels_tokens: Vec::new(),
            token_transactions: Vec::new(),
            videos: Vec::new(),
            tags: Vec::new(),
            video_plays: Vec::new(),
            videos_tags: Vec::new(),
            comments: Vec::new(),
            comment_upvotes: Vec::new(),
            video_upvotes: Vec::new(),
            next_id: 1,
        }
    }

    /// Index of the user row with this id, if any.
    pub(crate) fn user_index(&self, id: i32) -> (r: Option<usize>)
        ensures
            match r {
                Some(i) => {
                    &&& i < self.users@.len()
                    &&& i == first_match(self.users@, user_with_id(id))
                    &&& self.users@[i as int].id == id
                },
                None => first_match(self.users@, user_with_id(id)) < 0,
            },
    {
        let n: usize = self.users.len();
        let mut i: usize = 0;
        while i < n
            invariant
                i <= n,
                n == self.users@.len(),
                forall|j: int| 0 <= j < i ==> !(user_with_id(id)(#[trigger] self.users@[j])),
            decreases n - i,
        {
            if self.users[i].id == id {
                proof {
                    lemma_first_match_at(self.users@, user_with_id(id), i as int);
                }
                return Some(i);
            }
            i = i + 1;
        }
        proof {
            lemma_first_match_none(self.users@, user_with_id(id));
        }
        None
    }

    /// The user row with this id, if any.
    pub fn get_user_by_id(&self, target_user_id: i32) -> (r: Option<&User>)
        ensures
            match r {
                Some(u) => {
                    &&& first_match(self.users@, user_with_id(target_user_id)) >= 0
                    &&& *u == self.users@[first_match(self.users@, user_with_id(target_user_id))]
                },
                None => first_match(self.users@, user_with_id(target_user_id)) < 0,
            },
    {
        match self.user_index(target_user_id) {
            Some(i) => Some(&self.users[i]),
            None => None,
        }
    }
}

/// Two optional strings agree up to their character views.
pub open spec fn opt_str_eq(a: Option<String>, b: Option<String>) -> bool {
    &&& (a is Some <==> b is Some)
    &&& (a is Some ==> a->0@ == b->0@)
}

/// An `Option<String>` copy.
pub(crate) fn clone_opt_string(o: &Option<String>) -> (r: Option<String>)
    ensures
        r == *o,
{
    match o {
        Some(s) => Some(s.clone()),
        None => None,
    }
}

/// What the projection of a user row into a [`SafeUser`] must preserve.
pub open spec fn safe_user_matches(r: SafeUser, u: User, subscribers: u64) -> bool {
    &&& r.id == u.id
    &&& r.username@ == u.username@
    &&& r.user_type == u.user_type
    &&& (r.avatar_filename is Some <==> u.avatar_filename is Some)
    &&& (r.avatar_filename is Some ==> r.avatar_filename->0@ == u.avatar_filename->0@)
    &&& (r.cover_filename is Some <==> u.cover_filename is Some)
    &&& (r.cover_filename is Some ==> r.cover_filename->0@ == u.cover_filename->0@)
    &&& r.subscriptions_enabled == u.subscriptions_enabled
    &&& (r.display_name is Some <==> u.display_name is Some)
    &&& (r.display_name is Some ==> r.display_name->0@ == u.display_name->0@)
    &&& (r.bio is Some <==> u.bio is Some)
    &&& (r.bio is Some ==> r.bio->0@ == u.bio->0@)
    &&& r.subscribers == subscribers
    &&& r.channel_onboarded == u.channel_onboarded
}

/// Projects a user row to its public fields, with the subscriber count the
/// caller aggregated; credentials and payment references never leave.
pub fn get_safe_user_fields(u: &User, subscribers: u64) -> (r: SafeUser)
    ensures
        safe_user_matches(r, *u, subscribers),
{
    SafeUser {
        id: u.id,
        username: u.username.clone(),
        user_type: u.user_type,
        avatar_filename: clone_opt_string(&u.avatar_filename),
        cover_filename: clone_opt_string(&u.cover_filename),
        subscriptions_enabled: u.subscriptions_enabled,
        display_name: clone_opt_string(&u.display_name),
        bio: clone_opt_string(&u.bio),
        subscribers,
        channel_onboarded: u.channel_onboarded,
    }
}

} // verus!
