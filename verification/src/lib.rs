//! Verified core of a video-sharing platform backend: a token-based
//! monetization ledger (viewers grant tokens to channels, tokens convert to
//! payouts), a two-state upvote toggle engine, a tag-overlap recommendation
//! query, and the account/video/comment bookkeeping around them.
//!
//! All state lives in an in-memory [`store::Store`] that models the relational
//! store one table per `Vec`. Every operation on it is specified and verified;
//! outside collaborators (password hashing, e-mail validation, randomness)
//! are reached through narrow trusted wrappers in [`auth`].

use vstd::prelude::*;

pub mod auth;
pub mod comments;
pub mod jobs;
pub mod models;
pub mod payouts;
pub mod query;
pub mod ranking;
pub mod recommender;
pub mod store;
pub mod text;
pub mod tokens;
pub mod upvotes;
pub mod users;
pub mod videos;

verus! {

/// Currency units deposited per converted channel token.
pub const TOKEN_VALUE: u32 = 180;

/// How long a transferred token keeps a subscription active, in seconds.
pub const TOKEN_VALIDITY_SECS: u64 = 2592000;

/// Lifetime of an issued identity claim, in seconds.
pub const SESSION_TTL_SECS: u64 = 86400;

/// Tokens granted to each subscription-enabled user by the periodic batch.
pub const SUBSCRIBER_GRANT_COUNT: u32 = 5;

/// Window within which a recorded play counts as "recently watched", in seconds.
pub const RECENTLY_WATCHED_SECS: u64 = 604800;

/// Upper bound on rows per table; keeps every ledger aggregate inside `i64`.
pub const MAX_ROWS: usize = 0x100_0000;

/// Length of a generated password-reset token, in characters.
pub const RESET_TOKEN_LEN: usize = 30;

/// Work factor handed to the password hasher.
pub const BCRYPT_COST: u32 = 4;

/// How many entries the top-channels and popular-tags queries return at most.
pub const TOP_LIMIT: usize = 10;

} // verus!
