//! Comments: creation against an existing video, owner-scoped edits, soft
//! deletion via the `inactive` flag, and the joined per-video listing with
//! vote counts and the viewer's own vote flags.

use vstd::prelude::*;

use crate::models::{Comment, CommentWithUser, UpvoteType};
use crate::query::{first_match, lemma_first_match_at, lemma_first_match_none, some_match};
use crate::store::{get_safe_user_fields, safe_user_matches, user_with_id, Store};
use crate::tokens::spec_channel_token_count;
use crate::upvotes::{spec_comment_vote_count, video_with_id};

verus! {

/// Request to comment on a video.
#[derive(Debug)]
pub struct CreateCommentInfo {
    pub text: String,
    pub video: i32,
}

/// Request to change one's own comment.
#[derive(Debug)]
pub struct EditCommentInfo {
    pub text: String,
    pub comment: i32,
}

/// Request to withdraw one's own comment.
#[derive(Clone, Copy, Debug)]
pub struct DeleteCommentInfo {
    pub comment: i32,
}

/// Path parameter of the per-video comment listing.
#[derive(Clone, Copy, Debug)]
pub struct GetCommentsParams {
    pub video_id: i32,
}

/// Why a comment operation was refused.
#[derive(Clone, Copy, PartialEq, Eq, Structural, Debug)]
pub enum CommentError {
    /// The commented video does not exist.
    VideoMissing,
}

/// Whether `viewer` holds an active vote of direction `t` on `comment`.
pub open spec fn spec_viewer_voted_comment(
    votes: Seq<crate::models::CommentUpvote>,
    viewer: i32,
    comment: i32,
    t: UpvoteType,
) -> bool {
    some_match(
        votes,
        |v: crate::models::CommentUpvote|
            v.user_id == viewer && v.comment_id == comment && v.upvote_type == t && !v.inactive,
    )
}

/// Predicate picking the comments the listing of `video` shows: active, on
/// this video, with an existing author.
pub open spec fn listed_comment(s: Store, video: i32) -> spec_fn(Comment) -> bool {
    |c: Comment|
        {
            &&& c.video_id == video
            &&& !c.inactive
            &&& first_match(s.users@, user_with_id(c.user_id)) >= 0
        }
}

/// What every listed comment record must carry, relative to its row, the
/// viewer, and the store it was read from.
pub open spec fn comment_with_user_matches(
    rec: CommentWithUser,
    c: Comment,
    s: Store,
    viewer: i32,
) -> bool {
    let ui = first_match(s.users@, user_with_id(c.user_id));
    &&& rec.id == c.id
    &&& safe_user_matches(
        rec.user,
        s.users@[ui],
        spec_channel_token_count(s.channels_tokens@, c.user_id) as u64,
    )
    &&& rec.text@ == c.text@
    &&& rec.inactive == c.inactive
    &&& rec.date == c.date
    &&& rec.upvoted == spec_viewer_voted_comment(s.comment_upvotes@, viewer, c.id, UpvoteType::Up)
    &&& rec.downvoted == spec_viewer_voted_comment(
        s.comment_upvotes@,
        viewer,
        c.id,
        UpvoteType::Down,
    )
    &&& rec.upvotes == spec_comment_vote_count(s.comment_upvotes@, c.id, UpvoteType::Up)
    &&& rec.downvotes == spec_comment_vote_count(s.comment_upvotes@, c.id, UpvoteType::Down)
}

impl Store {
    /// Adds a comment by `user_id` on `video` at `now`; refused when the
    /// video does not exist.
    pub fn create_comment(&mut self, user_id: i32, text: String, video: i32, now: u64) -> (r:
        Result<(), CommentError>)
        requires
            old(self).wf(),
            old(self).next_id < i32::MAX,
        ensures
            final(self).wf(),
            first_match(old(self).videos@, video_with_id(video)) >= 0 ==> ({
                &&& r is Ok
                &&& final(self).comments@.len() == old(self).comments@.len() + 1
                &&& final(self).comments@.take(old(self).comments@.len() as int) == old(
                    self,
                ).comments@
                &&& ({
                    let c = final(self).comments@.last();
                    &&& c.id == old(self).next_id
                    &&& c.user_id == user_id
                    &&& c.text@ == text@
                    &&& !c.inactive
                    &&& c.date == now
                    &&& c.video_id == video
                })
                &&& final(self).next_id == old(self).next_id + 1
                &&& final(self).users == old(self).users
                &&& final(self).tokens == old(self).tokens
                &&& final(self).channels_tokens == old(self).channels_tokens
                &&& final(self).token_transactions == old(self).token_transactions
                &&& final(self).videos == old(self).videos
                &&& final(self).tags == old(self).tags
                &&& final(self).videos_tags == old(self).videos_tags
                &&& final(self).video_plays == old(self).video_plays
                &&& final(self).comment_upvotes == old(self).comment_upvotes
                &&& final(self).video_upvotes == old(self).video_upvotes
            }),
            first_match(old(self).videos@, video_with_id(video)) < 0 ==> (r == Result::<
                (),
                CommentError,
            >::Err(CommentError::VideoMissing) && *final(self) == *old(self)),
    {
        if self.video_index(video).is_none() {
            return Err(CommentError::VideoMissing);
        }
        let comment = Comment {
            id: self.next_id,
            user_id,
            text,
            inactive: false,
            date: now,
            video_id: video,
        };
        self.comments.push(comment);
        self.next_id = self.next_id + 1;
        proof {
            assert(self.comments@.take(old(self).comments@.len() as int) =~= old(self).comments@);
        }
        Ok(())
    }

    /// Replaces the text of the caller's own comment; a no-op when no
    /// comment of theirs has this id.
    pub fn edit_comment(&mut self, user_id: i32, comment: i32, text: String)
        requires
            old(self).wf(),
        ensures
            final(self).wf(),
            ({
                let owned = |c: Comment| c.id == comment && c.user_id == user_id;
                let ci = first_match(old(self).comments@, owned);
                &&& ci >= 0 ==> ({
                    let c = old(self).comments@[ci];
                    &&& final(self).comments@.len() == old(self).comments@.len()
                    &&& forall|j: int|
                        0 <= j < old(self).comments@.len() && j != ci
                            ==> #[trigger] final(self).comments@[j] == old(self).comments@[j]
                    &&& final(self).comments@[ci].id == c.id
                    &&& final(self).comments@[ci].user_id == c.user_id
                    &&& final(self).comments@[ci].text@ == text@
                    &&& final(self).comments@[ci].inactive == c.inactive
                    &&& final(self).comments@[ci].date == c.date
                    &&& final(self).comments@[ci].video_id == c.video_id
                })
                &&& ci < 0 ==> *final(self) == *old(self)
                &&& final(self).users == old(self).users
                &&& final(self).tokens == old(self).tokens
                &&& final(self).channels_tokens == old(self).channels_tokens
                &&& final(self).token_transactions == old(self).token_transactions
                &&& final(self).videos == old(self).videos
                &&& final(self).tags == old(self).tags
                &&& final(self).videos_tags == old(self).videos_tags
                &&& final(self).video_plays == old(self).video_plays
                &&& final(self).comment_upvotes == old(self).comment_upvotes
                &&& final(self).video_upvotes == old(self).video_upvotes
                &&& final(self).next_id == old(self).next_id
            }),
    {
        let ghost owned = |c: Comment| c.id == comment && c.user_id == user_id;
        let n: usize = self.comments.len();
        let mut i: usize = 0;
        while i < n
            invariant
                i <= n,
                n == self.comments@.len(),
                *self == *old(self),
                old(self).wf(),
                owned == (|c: Comment| c.id == comment && c.user_id == user_id),
                forall|j: int| 0 <= j < i ==> !owned(#[trigger] self.comments@[j]),
            decreases n - i,
        {
            if self.comments[i].id == comment && self.comments[i].user_id == user_id {
                proof {
                    lemma_first_match_at(self.comments@, owned, i as int);
                }
                let updated = Comment {
                    id: self.comments[i].id,
                    user_id: self.comments[i].user_id,
                    text,
                    inactive: self.comments[i].inactive,
                    date: self.comments[i].date,
                    video_id: self.comments[i].video_id,
                };
                self.comments[i] = updated;
                return ;
            }
            i = i + 1;
        }
        proof {
            lemma_first_match_none(self.comments@, owned);
        }
    }

    /// Withdraws the caller's own comment by marking it inactive, keeping
    /// the row; a no-op when no comment of theirs has this id.
    pub fn delete_comment(&mut self, user_id: i32, comment: i32)
        requires
            old(self).wf(),
        ensures
            final(self).wf(),
            ({
                let owned = |c: Comment| c.id == comment && c.user_id == user_id;
                let ci = first_match(old(self).comments@, owned);
                &&& ci >= 0 ==> ({
                    let c = old(self).comments@[ci];
                    &&& final(self).comments@.len() == old(self).comments@.len()
                    &&& forall|j: int|
                        0 <= j < old(self).comments@.len() && j != ci
                            ==> #[trigger] final(self).comments@[j] == old(self).comments@[j]
                    &&& final(self).comments@[ci].id == c.id
                    &&& final(self).comments@[ci].user_id == c.user_id
                    &&& final(self).comments@[ci].text@ == c.text@
                    &&& final(self).comments@[ci].inactive
                    &&& final(self).comments@[ci].date == c.date
                    &&& final(self).comments@[ci].video_id == c.video_id
                })
                &&& ci < 0 ==> *final(self) == *old(self)
                &&& final(self).users == old(self).users
                &&& final(self).tokens == old(self).tokens
                &&& final(self).channels_tokens == old(self).channels_tokens
                &&& final(self).token_transactions == old(self).token_transactions
                &&& final(self).videos == old(self).videos
                &&& final(self).tags == old(self).tags
                &&& final(self).videos_tags == old(self).videos_tags
                &&& final(self).video_plays == old(self).video_plays
                &&& final(self).comment_upvotes == old(self).comment_upvotes
                &&& final(self).video_upvotes == old(self).video_upvotes
                &&& final(self).next_id == old(self).next_id
            }),
    {
        let ghost owned = |c: Comment| c.id == comment && c.user_id == user_id;
        let n: usize = self.comments.len();
        let mut i: usize = 0;
        while i < n
            invariant
                i <= n,
                n == self.comments@.len(),
                *self == *old(self),
                old(self).wf(),
                owned == (|c: Comment| c.id == comment && c.user_id == user_id),
                forall|j: int| 0 <= j < i ==> !owned(#[trigger] self.comments@[j]),
            decreases n - i,
        {
            if self.comments[i].id == comment && self.comments[i].user_id == user_id {
                proof {
                    lemma_first_match_at(self.comments@, owned, i as int);
                }
                let updated = Comment {
                    id: self.comments[i].id,
                    user_id: self.comments[i].user_id,
                    text: self.comments[i].text.clone(),
                    inactive: true,
                    date: self.comments[i].date,
                    video_id: self.comments[i].video_id,
                };
                self.comments[i] = updated;
                return ;
            }
            i = i + 1;
        }
        proof {
            lemma_first_match_none(self.comments@, owned);
        }
    }

    /// Whether `viewer` holds an active vote of direction `t` on `comment`.
    pub fn viewer_voted_comment(&self, viewer: i32, comment: i32, t: UpvoteType) -> (r: bool)
        ensures
            r == spec_viewer_voted_comment(self.comment_upvotes@, viewer, comment, t),
    {
        let ghost p = |v: crate::models::CommentUpvote|
            v.user_id == viewer && v.comment_id == comment && v.upvote_type == t && !v.inactive;
        let n: usize = self.comment_upvotes.len();
        let mut i: usize = 0;
        while i < n
            invariant
                i <= n,
                n == self.comment_upvotes@.len(),
                p == (|v: crate::models::CommentUpvote|
                    v.user_id == viewer && v.comment_id == comment && v.upvote_type == t
                        && !v.inactive),
                forall|j: int| 0 <= j < i ==> !p(#[trigger] self.comment_upvotes@[j]),
            decreases n - i,
        {
            let v = &self.comment_upvotes[i];
            if v.user_id == viewer && v.comment_id == comment && !v.inactive {
                let same = v.upvote_type == t;
                if same {
                    return true;
                }
            }
            i = i + 1;
        }
        false
    }

    /// The active comments of one video, in table order, joined with their
    /// authors, their vote counts, and the viewer's own vote flags.
    pub fn get_comments(&self, video_id: i32, viewer: i32) -> (r: Vec<CommentWithUser>)
        ensures
            ({
                let picked = self.comments@.filter(listed_comment(*self, video_id));
                &&& r@.len() == picked.len()
                &&& forall|k: int|
                    0 <= k < picked.len() ==> comment_with_user_matches(
                        #[trigger] r@[k],
                        picked[k],
                        *self,
                        viewer,
                    )
            }),
    {
        let ghost pred = listed_comment(*self, video_id);
        let n: usize = self.comments.len();
        let mut r: Vec<CommentWithUser> = Vec::new();
        let mut i: usize = 0;
        proof {
            assert(self.comments@.take(0) =~= Seq::<Comment>::empty());
            assert(Seq::<Comment>::empty().filter(pred) =~= Seq::<Comment>::empty()) by {
                reveal(Seq::filter);
            }
        }
        while i < n
            invariant
                i <= n,
                n == self.comments@.len(),
                pred == listed_comment(*self, video_id),
                r@.len() == self.comments@.take(i as int).filter(pred).len(),
                forall|k: int|
                    0 <= k < r@.len() ==> comment_with_user_matches(
                        #[trigger] r@[k],
                        self.comments@.take(i as int).filter(pred)[k],
                        *self,
                        viewer,
                    ),
            decreases n - i,
        {
            proof {
                let pre = self.comments@.take(i as int);
                let x = self.comments@[i as int];
                assert(self.comments@.take(i + 1) == pre.push(x));
                pre.lemma_filter_push(x, pred);
            }
            let on_video = self.comments[i].video_id == video_id;
            let author = self.comments[i].user_id;
            let c_id = self.comments[i].id;
            if on_video && !self.comments[i].inactive {
                match self.user_index(author) {
                    Some(ui) => {
                        let subscribers = self.count_channel_tokens(author);
                        let safe = get_safe_user_fields(&self.users[ui], subscribers);
                        let rec = CommentWithUser {
                            id: c_id,
                            user: safe,
                            text: self.comments[i].text.clone(),
                            inactive: self.comments[i].inactive,
                            date: self.comments[i].date,
                            upvoted: self.viewer_voted_comment(viewer, c_id, UpvoteType::Up),
                            downvoted: self.viewer_voted_comment(viewer, c_id, UpvoteType::Down),
                            upvotes: self.count_comment_votes(c_id, UpvoteType::Up),
                            downvotes: self.count_comment_votes(c_id, UpvoteType::Down),
                        };
                        r.push(rec);
                    },
                    None => {},
                }
            }
            i = i + 1;
        }
        proof {
            assert(self.comments@.take(n as int) =~= self.comments@);
        }
        r
    }
}

} // verus!
