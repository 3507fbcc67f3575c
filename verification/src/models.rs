//! Row types of the relational model and the shaped records that queries
//! return. Timestamps are seconds since the epoch (`u64`); identifiers are
//! store-assigned `i32` values.

use vstd::prelude::*;

verus! {

/// Whether an account consumes content (and receives tokens to grant) or
/// publishes it (and receives granted tokens). Immutable after creation.
#[derive(Clone, Copy, PartialEq, Eq, Structural, Debug)]
pub enum UserType {
    Subscriber,
    Channel,
}

/// Direction of a vote on a comment or a video.
#[derive(Clone, Copy, PartialEq, Eq, Structural, Debug)]
pub enum UpvoteType {
    Up,
    Down,
}

/// Kind of a ledger entry: money credited to or debited from a channel.
#[derive(Clone, Copy, PartialEq, Eq, Structural, Debug)]
pub enum TransactionType {
    Deposit,
    Withdrawal,
}

/// Lifecycle state of an uploaded video; only `Ready` videos are served.
#[derive(Clone, Copy, PartialEq, Eq, Structural, Debug)]
pub enum VideoStatus {
    Processing,
    Ready,
}

/// An account row. The `password` field holds the bcrypt hash, never the
/// plain password; `password_reset_token` holds the hash of an outstanding
/// reset token, if any.
#[derive(Debug)]
pub struct User {
    pub id: i32,
    pub username: String,
    pub password: String,
    pub email: String,
    pub password_reset_token: Option<String>,
    pub user_type: UserType,
    pub stripe_customer: Option<String>,
    pub subscribed: bool,
    pub stripe_account: Option<String>,
    pub channel_onboarded: bool,
    pub avatar_filename: Option<String>,
    pub cover_filename: Option<String>,
    pub subscriptions_enabled: bool,
    pub display_name: Option<String>,
    pub bio: Option<String>,
}

/// The fields a caller supplies to create an account.
#[derive(Debug)]
pub struct NewUser {
    pub username: String,
    pub password: String,
    pub email: String,
    pub user_type: UserType,
}

/// One unit of viewer-granted value, owned by `user_id`. It is unused while
/// `date_used` is `None` and consumed exactly once by a transfer, which sets
/// both `used` and `date_used`.
#[derive(Clone, Copy, Debug)]
pub struct Token {
    pub id: i32,
    pub user_id: i32,
    pub used: bool,
    pub date_granted: u64,
    pub date_used: Option<u64>,
}

/// Request to mint one token for `user_id`.
#[derive(Clone, Copy, Debug)]
pub struct NewToken {
    pub user_id: i32,
}

/// Record of a token having been transferred to a channel. It keeps a
/// subscription active until `expires` and is folded into a deposit by the
/// conversion batch, which sets `converted`.
#[derive(Clone, Copy, Debug)]
pub struct ChannelToken {
    pub id: i32,
    pub token_id: i32,
    pub channel_user_id: i32,
    pub expires: u64,
    pub converted: bool,
}

/// Request to record a transfer of `token_id` to `channel_user_id`.
#[derive(Clone, Copy, Debug)]
pub struct NewChannelToken {
    pub token_id: i32,
    pub channel_user_id: i32,
}

/// How many unconverted channel tokens one channel holds; one group of the
/// conversion batch.
#[derive(Clone, Copy, Debug)]
pub struct ChannelTokenAmount {
    pub channel_user_id: i32,
    pub token_count: u64,
}

/// An immutable ledger entry for a channel's balance.
#[derive(Clone, Copy, Debug)]
pub struct TokenTransaction {
    pub id: i32,
    pub channel_user_id: i32,
    pub transaction_type: TransactionType,
    pub amount: u32,
    pub date: u64,
}

/// The fields of a ledger entry before the store assigns id and date.
#[derive(Clone, Copy, Debug)]
pub struct NewTokenTransaction {
    pub channel_user_id: i32,
    pub transaction_type: TransactionType,
    pub amount: u32,
}

/// An uploaded video row, owned by `user_id`.
#[derive(Debug)]
pub struct Video {
    pub id: i32,
    pub file_name: String,
    pub user_id: i32,
    pub title: String,
    pub description: Option<String>,
    pub upload_date: u64,
    pub status: VideoStatus,
}

/// The fields a caller supplies to create a video row.
#[derive(Debug)]
pub struct NewVideo {
    pub file_name: String,
    pub user_id: i32,
    pub title: String,
    pub description: Option<String>,
}

/// A label attachable to videos.
#[derive(Debug)]
pub struct Tag {
    pub id: i32,
    pub name: String,
}

/// Junction row: video `video_id` carries tag `tag_id`.
#[derive(Clone, Copy, Debug)]
pub struct VideoTag {
    pub id: i32,
    pub video_id: i32,
    pub tag_id: i32,
}

/// Request to attach `tag_id` to `video_id`.
#[derive(Clone, Copy, Debug)]
pub struct NewVideoTag {
    pub video_id: i32,
    pub tag_id: i32,
}

/// Append-only record of one playback of `video_id` by `user_id`.
#[derive(Clone, Copy, Debug)]
pub struct VideoPlay {
    pub id: i32,
    pub user_id: i32,
    pub video_id: i32,
    pub date: u64,
}

/// Request to record one playback.
#[derive(Clone, Copy, Debug)]
pub struct NewVideoPlay {
    pub user_id: i32,
    pub video_id: i32,
}

/// A comment on a video; `inactive` marks deletion while preserving history.
#[derive(Debug)]
pub struct Comment {
    pub id: i32,
    pub user_id: i32,
    pub text: String,
    pub inactive: bool,
    pub date: u64,
    pub video_id: i32,
}

/// The fields a caller supplies to create a comment.
#[derive(Debug)]
pub struct NewComment {
    pub text: String,
    pub user_id: i32,
    pub video_id: i32,
}

/// One user's vote on one comment. At most the first row per
/// (user, comment) pair is ever consulted or updated; `inactive` marks a
/// toggled-off vote rather than deleting it.
#[derive(Clone, Copy, Debug)]
pub struct CommentUpvote {
    pub id: i32,
    pub user_id: i32,
    pub comment_id: i32,
    pub inactive: bool,
    pub date: u64,
    pub upvote_type: UpvoteType,
}

/// Request to record a first vote on a comment.
#[derive(Clone, Copy, Debug)]
pub struct NewCommentUpvote {
    pub user_id: i32,
    pub comment_id: i32,
    pub upvote_type: UpvoteType,
}

/// One user's vote on one video; same lifecycle as [`CommentUpvote`].
#[derive(Clone, Copy, Debug)]
pub struct VideoUpvote {
    pub id: i32,
    pub user_id: i32,
    pub video_id: i32,
    pub inactive: bool,
    pub date: u64,
    pub upvote_type: UpvoteType,
}

/// Request to record a first vote on a video.
#[derive(Clone, Copy, Debug)]
pub struct NewVideoUpvote {
    pub user_id: i32,
    pub video_id: i32,
    pub upvote_type: UpvoteType,
}

/// The publicly visible projection of a [`User`]: no credentials, no payment
/// references; `subscribers` counts the channel tokens held against the
/// account.
#[derive(Debug)]
pub struct SafeUser {
    pub id: i32,
    pub username: String,
    pub user_type: UserType,
    pub avatar_filename: Option<String>,
    pub cover_filename: Option<String>,
    pub subscriptions_enabled: bool,
    pub display_name: Option<String>,
    pub bio: Option<String>,
    pub subscribers: u64,
    pub channel_onboarded: bool,
}

/// A video joined with its uploader, its tags, its aggregate counts, and the
/// requesting viewer's own vote flags.
#[derive(Debug)]
pub struct VideoWithUser {
    pub id: i32,
    pub file_name: String,
    pub user: SafeUser,
    pub title: String,
    pub description: Option<String>,
    pub upload_date: u64,
    pub upvoted: bool,
    pub downvoted: bool,
    pub upvotes: u64,
    pub downvotes: u64,
    pub plays: u64,
    pub tags: Vec<Tag>,
}

/// A comment joined with its author, its vote counts, and the requesting
/// viewer's own vote flags.
#[derive(Debug)]
pub struct CommentWithUser {
    pub id: i32,
    pub user: SafeUser,
    pub text: String,
    pub inactive: bool,
    pub date: u64,
    pub upvoted: bool,
    pub downvoted: bool,
    pub upvotes: u64,
    pub downvotes: u64,
}

/// A channel token joined with the channel it subscribes to.
#[derive(Debug)]
pub struct ChannelTokenWithUser {
    pub id: i32,
    pub token_id: i32,
    pub channel_user_id: i32,
    pub user: SafeUser,
    pub expires: u64,
}

/// A tag with the number of videos carrying it.
#[derive(Debug)]
pub struct PopularTag {
    pub id: i32,
    pub name: String,
    pub count: u64,
}

/// A channel with the total play count over its videos.
#[derive(Debug)]
pub struct TopChannel {
    pub id: i32,
    pub username: String,
    pub user_type: UserType,
    pub avatar_filename: Option<String>,
    pub cover_filename: Option<String>,
    pub subscriptions_enabled: bool,
    pub display_name: Option<String>,
    pub bio: Option<String>,
    pub plays: u64,
}

/// The identity a successful login asserts; `exp` is the expiry time in
/// seconds since the epoch.
#[derive(Debug, PartialEq, Eq)]
pub struct UserClaim {
    pub id: i32,
    pub username: String,
    pub email: String,
    pub exp: u64,
    pub user_type: UserType,
}

} // verus!
