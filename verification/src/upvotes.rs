//! The upvote toggle engine: one two-state (up/down, active/inactive)
//! machine shared by comment and video votes. A first click inserts an
//! active vote, a repeated click on the same button flips it off and on
//! again, and a click on the other button switches direction and always
//! reactivates. Effective counts consider active rows only.

use vstd::prelude::*;

use crate::models::{CommentUpvote, UpvoteType, VideoUpvote};
use crate::query::{first_match, lemma_first_match_at, lemma_first_match_none,
    lemma_first_match_props};
use crate::store::Store;

verus! {

/// Request to toggle a vote on a comment.
#[derive(Clone, Copy, Debug)]
pub struct ToggleCommentUpvoteInfo {
    pub comment: i32,
    pub upvote_type: UpvoteType,
}

/// Request to toggle a vote on a video.
#[derive(Clone, Copy, Debug)]
pub struct ToggleVideoUpvoteInfo {
    pub video: i32,
    pub upvote_type: UpvoteType,
}

/// Path parameter of the vote count query.
#[derive(Clone, Copy, Debug)]
pub struct GetUpvoteCountParams {
    pub video_id: i32,
}

/// Effective vote counts of one video.
#[derive(Clone, Copy, Debug)]
pub struct GetUpvoteCountResponse {
    pub upvotes: u64,
    pub downvotes: u64,
}

/// Why a vote toggle was refused.
#[derive(Clone, Copy, PartialEq, Eq, Structural, Debug)]
pub enum UpvoteError {
    /// A first vote was cast on a comment or video that does not exist.
    TargetMissing,
}

/// The toggle machine itself: what (direction, inactive) state one click of
/// `requested` produces from an existing vote row.
pub open spec fn spec_toggle(cur: UpvoteType, inactive: bool, requested: UpvoteType) -> (
    UpvoteType,
    bool,
) {
    if cur == requested {
        (cur, !inactive)
    } else {
        (requested, false)
    }
}

/// Predicate picking the vote of `user` on comment `comment`.
pub open spec fn vote_on_comment(user: i32, comment: i32) -> spec_fn(CommentUpvote) -> bool {
    |v: CommentUpvote| v.user_id == user && v.comment_id == comment
}

/// Predicate picking the vote of `user` on video `video`.
pub open spec fn vote_on_video(user: i32, video: i32) -> spec_fn(VideoUpvote) -> bool {
    |v: VideoUpvote| v.user_id == user && v.video_id == video
}

/// Predicate picking the active votes of direction `t` on comment `comment`.
pub open spec fn active_comment_vote(comment: i32, t: UpvoteType) -> spec_fn(
    CommentUpvote,
) -> bool {
    |v: CommentUpvote| v.comment_id == comment && v.upvote_type == t && !v.inactive
}

/// Predicate picking the active votes of direction `t` on video `video`.
pub open spec fn active_video_vote(video: i32, t: UpvoteType) -> spec_fn(VideoUpvote) -> bool {
    |v: VideoUpvote| v.video_id == video && v.upvote_type == t && !v.inactive
}

/// Effective count of direction `t` on a comment.
pub open spec fn spec_comment_vote_count(votes: Seq<CommentUpvote>, comment: i32, t: UpvoteType)
    -> nat {
    votes.filter(active_comment_vote(comment, t)).len()
}

/// Effective count of direction `t` on a video.
pub open spec fn spec_video_vote_count(votes: Seq<VideoUpvote>, video: i32, t: UpvoteType)
    -> nat {
    votes.filter(active_video_vote(video, t)).len()
}

/// Effective votes of direction `t` that `user` holds on comment `comment`.
pub open spec fn spec_user_comment_vote_count(
    votes: Seq<CommentUpvote>,
    user: i32,
    comment: i32,
    t: UpvoteType,
) -> nat {
    votes.filter(
        |v: CommentUpvote| v.user_id == user && v.comment_id == comment && v.upvote_type == t
            && !v.inactive,
    ).len()
}

/// Predicate picking the comment row with this id.
pub open spec fn comment_with_id(id: i32) -> spec_fn(crate::models::Comment) -> bool {
    |c: crate::models::Comment| c.id == id
}

/// Predicate picking the video row with this id.
pub open spec fn video_with_id(id: i32) -> spec_fn(crate::models::Video) -> bool {
    |v: crate::models::Video| v.id == id
}

impl Store {
    /// Index of the comment row with this id, if any.
    pub(crate) fn comment_index(&self, id: i32) -> (r: Option<usize>)
        ensures
            match r {
                Some(i) => {
                    &&& i < self.comments@.len()
                    &&& i == first_match(self.comments@, comment_with_id(id))
                    &&& self.comments@[i as int].id == id
                },
                None => first_match(self.comments@, comment_with_id(id)) < 0,
            },
    {
        let n: usize = self.comments.len();
        let mut i: usize = 0;
        while i < n
            invariant
                i <= n,
                n == self.comments@.len(),
                forall|j: int| 0 <= j < i ==> !(comment_with_id(id)(#[trigger] self.comments@[j])),
            decreases n - i,
        {
            if self.comments[i].id == id {
                proof {
                    lemma_first_match_at(self.comments@, comment_with_id(id), i as int);
                }
                return Some(i);
            }
            i = i + 1;
        }
        proof {
            lemma_first_match_none(self.comments@, comment_with_id(id));
        }
        None
    }

    /// Index of the video row with this id, if any.
    pub(crate) fn video_index(&self, id: i32) -> (r: Option<usize>)
        ensures
            match r {
                Some(i) => {
                    &&& i < self.videos@.len()
                    &&& i == first_match(self.videos@, video_with_id(id))
                    &&& self.videos@[i as int].id == id
                },
                None => first_match(self.videos@, video_with_id(id)) < 0,
            },
    {
        let n: usize = self.videos.len();
        let mut i: usize = 0;
        while i < n
            invariant
                i <= n,
                n == self.videos@.len(),
                forall|j: int| 0 <= j < i ==> !(video_with_id(id)(#[trigger] self.videos@[j])),
            decreases n - i,
        {
            if self.videos[i].id == id {
                proof {
                    lemma_first_match_at(self.videos@, video_with_id(id), i as int);
                }
                return Some(i);
            }
            i = i + 1;
        }
        proof {
            lemma_first_match_none(self.videos@, video_with_id(id));
        }
        None
    }

    /// One click of `requested` by `user_id` on a comment: inserts an active
    /// vote if none exists (refused when the comment is missing), otherwise
    /// drives the existing row through [`spec_toggle`].
    pub fn toggle_comment_upvote(
        &mut self,
        user_id: i32,
        comment_id: i32,
        requested: UpvoteType,
        now: u64,
    ) -> (r: Result<(), UpvoteError>)
        requires
            old(self).wf(),
            old(self).next_id < i32::MAX,
        ensures
            final(self).wf(),
            ({
                let fm = first_match(old(self).comment_upvotes@, vote_on_comment(user_id, comment_id));
                let has_comment = first_match(old(self).comments@, comment_with_id(comment_id))
                    >= 0;
                &&& fm >= 0 ==> ({
                    let cur = old(self).comment_upvotes@[fm];
                    let next_state = spec_toggle(cur.upvote_type, cur.inactive, requested);
                    &&& r is Ok
                    &&& final(self).comment_upvotes@ == old(self).comment_upvotes@.update(
                        fm,
                        (CommentUpvote {
                            id: cur.id,
                            user_id: cur.user_id,
                            comment_id: cur.comment_id,
                            inactive: next_state.1,
                            date: cur.date,
                            upvote_type: next_state.0,
                        }),
                    )
                    &&& final(self).next_id == old(self).next_id
                })
                &&& (fm < 0 && has_comment) ==> ({
                    &&& r is Ok
                    &&& final(self).comment_upvotes@ == old(self).comment_upvotes@.push(
                        (CommentUpvote {
                            id: old(self).next_id,
                            user_id,
                            comment_id,
                            inactive: false,
                            date: now,
                            upvote_type: requested,
                        }),
                    )
                    &&& final(self).next_id == old(self).next_id + 1
                })
                &&& (fm < 0 && !has_comment) ==> (r == Result::<(), UpvoteError>::Err(
                    UpvoteError::TargetMissing,
                ) && *final(self) == *old(self))
                &&& final(self).users == old(self).users
                &&& final(self).tokens == old(self).tokens
                &&& final(self).channels_tokens == old(self).channels_tokens
                &&& final(self).token_transactions == old(self).token_transactions
                &&& final(self).videos == old(self).videos
                &&& final(self).tags == old(self).tags
                &&& final(self).videos_tags == old(self).videos_tags
                &&& final(self).video_plays == old(self).video_plays
                &&& final(self).comments == old(self).comments
                &&& final(self).video_upvotes == old(self).video_upvotes
            }),
    {
        let n: usize = self.comment_upvotes.len();
        let mut i: usize = 0;
        while i < n
            invariant
                i <= n,
                n == self.comment_upvotes@.len(),
                *self == *old(self),
                old(self).wf(),
                old(self).next_id < i32::MAX,
                forall|j: int|
                    0 <= j < i ==> !(vote_on_comment(user_id, comment_id)(
                        #[trigger] self.comment_upvotes@[j],
                    )),
            decreases n - i,
        {
            let cur = &self.comment_upvotes[i];
            if cur.user_id == user_id && cur.comment_id == comment_id {
                proof {
                    lemma_first_match_at(
                        self.comment_upvotes@,
                        vote_on_comment(user_id, comment_id),
                        i as int,
                    );
                }
                let same = cur.upvote_type == requested;
                let updated = CommentUpvote {
                    id: cur.id,
                    user_id: cur.user_id,
                    comment_id: cur.comment_id,
                    inactive: if same {
                        !cur.inactive
                    } else {
                        false
                    },
                    date: cur.date,
                    upvote_type: requested,
                };
                self.comment_upvotes[i] = updated;
                return Ok(());
            }
            i = i + 1;
        }
        proof {
            lemma_first_match_none(self.comment_upvotes@, vote_on_comment(user_id, comment_id));
        }
        if self.comment_index(comment_id).is_none() {
            return Err(UpvoteError::TargetMissing);
        }
        let fresh = CommentUpvote {
            id: self.next_id,
            user_id,
            comment_id,
            inactive: false,
            date: now,
            upvote_type: requested,
        };
        self.comment_upvotes.push(fresh);
        self.next_id = self.next_id + 1;
        Ok(())
    }

    /// One click of `requested` by `user_id` on a video; the same machine as
    /// [`Store::toggle_comment_upvote`], over the video vote table.
    pub fn toggle_video_upvote(
        &mut self,
        user_id: i32,
        video_id: i32,
        requested: UpvoteType,
        now: u64,
    ) -> (r: Result<(), UpvoteError>)
        requires
            old(self).wf(),
            old(self).next_id < i32::MAX,
        ensures
            final(self).wf(),
            ({
                let fm = first_match(old(self).video_upvotes@, vote_on_video(user_id, video_id));
                let has_video = first_match(old(self).videos@, video_with_id(video_id)) >= 0;
                &&& fm >= 0 ==> ({
                    let cur = old(self).video_upvotes@[fm];
                    let next_state = spec_toggle(cur.upvote_type, cur.inactive, requested);
                    &&& r is Ok
                    &&& final(self).video_upvotes@ == old(self).video_upvotes@.update(
                        fm,
                        (VideoUpvote {
                            id: cur.id,
                            user_id: cur.user_id,
                            video_id: cur.video_id,
                            inactive: next_state.1,
                            date: cur.date,
                            upvote_type: next_state.0,
                        }),
                    )
                    &&& final(self).next_id == old(self).next_id
                })
                &&& (fm < 0 && has_video) ==> ({
                    &&& r is Ok
                    &&& final(self).video_upvotes@ == old(self).video_upvotes@.push(
                        (VideoUpvote {
                            id: old(self).next_id,
                            user_id,
                            video_id,
                            inactive: false,
                            date: now,
                            upvote_type: requested,
                        }),
                    )
                    &&& final(self).next_id == old(self).next_id + 1
                })
                &&& (fm < 0 && !has_video) ==> (r == Result::<(), UpvoteError>::Err(
                    UpvoteError::TargetMissing,
                ) && *final(self) == *old(self))
                &&& final(self).users == old(self).users
                &&& final(self).tokens == old(self).tokens
                &&& final(self).channels_tokens == old(self).channels_tokens
                &&& final(self).token_transactions == old(self).token_transactions
                &&& final(self).videos == old(self).videos
                &&& final(self).tags == old(self).tags
                &&& final(self).videos_tags == old(self).videos_tags
                &&& final(self).video_plays == old(self).video_plays
                &&& final(self).comments == old(self).comments
                &&& final(self).comment_upvotes == old(self).comment_upvotes
            }),
    {
        let n: usize = self.video_upvotes.len();
        let mut i: usize = 0;
        while i < n
            invariant
                i <= n,
                n == self.video_upvotes@.len(),
                *self == *old(self),
                old(self).wf(),
                old(self).next_id < i32::MAX,
                forall|j: int|
                    0 <= j < i ==> !(vote_on_video(user_id, video_id)(
                        #[trigger] self.video_upvotes@[j],
                    )),
            decreases n - i,
        {
            let cur = &self.video_upvotes[i];
            if cur.user_id == user_id && cur.video_id == video_id {
                proof {
                    lemma_first_match_at(
                        self.video_upvotes@,
                        vote_on_video(user_id, video_id),
                        i as int,
                    );
                }
                let same = cur.upvote_type == requested;
                let updated = VideoUpvote {
                    id: cur.id,
                    user_id: cur.user_id,
                    video_id: cur.video_id,
                    inactive: if same {
                        !cur.inactive
                    } else {
                        false
                    },
                    date: cur.date,
                    upvote_type: requested,
                };
                self.video_upvotes[i] = updated;
                return Ok(());
            }
            i = i + 1;
        }
        proof {
            lemma_first_match_none(self.video_upvotes@, vote_on_video(user_id, video_id));
        }
        if self.video_index(video_id).is_none() {
            return Err(UpvoteError::TargetMissing);
        }
        let fresh = VideoUpvote {
            id: self.next_id,
            user_id,
            video_id,
            inactive: false,
            date: now,
            upvote_type: requested,
        };
        self.video_upvotes.push(fresh);
        self.next_id = self.next_id + 1;
        Ok(())
    }

    /// Effective up and down counts of a video: active rows only.
    pub fn get_video_upvote_count(&self, video_id: i32) -> (r: GetUpvoteCountResponse)
        ensures
            r.upvotes == spec_video_vote_count(self.video_upvotes@, video_id, UpvoteType::Up),
            r.downvotes == spec_video_vote_count(self.video_upvotes@, video_id, UpvoteType::Down),
    {
        let upvotes = self.count_video_votes(video_id, UpvoteType::Up);
        let downvotes = self.count_video_votes(video_id, UpvoteType::Down);
        GetUpvoteCountResponse { upvotes, downvotes }
    }

    /// Effective count of one direction on a video.
    pub fn count_video_votes(&self, video_id: i32, t: UpvoteType) -> (r: u64)
        ensures
            r == spec_video_vote_count(self.video_upvotes@, video_id, t),
    {
        let n: usize = self.video_upvotes.len();
        let mut count: u64 = 0;
        let mut i: usize = 0;
        proof {
            assert(self.video_upvotes@.take(0) =~= Seq::<VideoUpvote>::empty());
            assert(Seq::<VideoUpvote>::empty().filter(active_video_vote(video_id, t)) =~= Seq::<
                VideoUpvote,
            >::empty()) by {
                reveal(Seq::filter);
            }
        }
        while i < n
            invariant
                i <= n,
                n == self.video_upvotes@.len(),
                count == self.video_upvotes@.take(i as int).filter(
                    active_video_vote(video_id, t),
                ).len(),
                count <= i,
            decreases n - i,
        {
            proof {
                let pre = self.video_upvotes@.take(i as int);
                let x = self.video_upvotes@[i as int];
                assert(self.video_upvotes@.take(i + 1) == pre.push(x));
                pre.lemma_filter_push(x, active_video_vote(video_id, t));
            }
            let v = &self.video_upvotes[i];
            if v.video_id == video_id && !v.inactive {
                let same = v.upvote_type == t;
                if same {
                    count = count + 1;
                }
            }
            i = i + 1;
        }
        proof {
            assert(self.video_upvotes@.take(n as int) =~= self.video_upvotes@);
        }
        count
    }

    /// Effective count of one direction on a comment.
    pub fn count_comment_votes(&self, comment_id: i32, t: UpvoteType) -> (r: u64)
        ensures
            r == spec_comment_vote_count(self.comment_upvotes@, comment_id, t),
    {
        let n: usize = self.comment_upvotes.len();
        let mut count: u64 = 0;
        let mut i: usize = 0;
        proof {
            assert(self.comment_upvotes@.take(0) =~= Seq::<CommentUpvote>::empty());
            assert(Seq::<CommentUpvote>::empty().filter(active_comment_vote(comment_id, t))
                =~= Seq::<CommentUpvote>::empty()) by {
                reveal(Seq::filter);
            }
        }
        while i < n
            invariant
                i <= n,
                n == self.comment_upvotes@.len(),
                count == self.comment_upvotes@.take(i as int).filter(
                    active_comment_vote(comment_id, t),
                ).len(),
                count <= i,
            decreases n - i,
        {
            proof {
                let pre = self.comment_upvotes@.take(i as int);
                let x = self.comment_upvotes@[i as int];
                assert(self.comment_upvotes@.take(i + 1) == pre.push(x));
                pre.lemma_filter_push(x, active_comment_vote(comment_id, t));
            }
            let v = &self.comment_upvotes[i];
            if v.comment_id == comment_id && !v.inactive {
                let same = v.upvote_type == t;
                if same {
                    count = count + 1;
                }
            }
            i = i + 1;
        }
        proof {
            assert(self.comment_upvotes@.take(n as int) =~= self.comment_upvotes@);
        }
        count
    }
}

/// The toggle cycle, starting from no vote of `user` on `comment`: the first
/// click leaves an active vote, the second leaves it inactive with zero
/// effective votes of that direction from this user, and the third
/// reactivates it.
pub proof fn lemma_toggle_cycle(
    v0: Seq<CommentUpvote>,
    user: i32,
    comment: i32,
    requested: UpvoteType,
    id: i32,
    now: u64,
)
    requires
        first_match(v0, vote_on_comment(user, comment)) < 0,
    ensures
        ({
            let fresh = (CommentUpvote {
                id,
                user_id: user,
                comment_id: comment,
                inactive: false,
                date: now,
                upvote_type: requested,
            });
            let v1 = v0.push(fresh);
            let fm = first_match(v1, vote_on_comment(user, comment));
            let second = spec_toggle(v1[fm].upvote_type, v1[fm].inactive, requested);
            let v2 = v1.update(
                fm,
                (CommentUpvote {
                    id,
                    user_id: user,
                    comment_id: comment,
                    inactive: second.1,
                    date: now,
                    upvote_type: second.0,
                }),
            );
            let third = spec_toggle(v2[fm].upvote_type, v2[fm].inactive, requested);
            &&& fm == v0.len()
            &&& v1[fm].inactive == false
            &&& second == (requested, true)
            &&& spec_user_comment_vote_count(v2, user, comment, requested) == 0
            &&& third == (requested, false)
        }),
{
    let pred = vote_on_comment(user, comment);
    let fresh = (CommentUpvote {
        id,
        user_id: user,
        comment_id: comment,
        inactive: false,
        date: now,
        upvote_type: requested,
    });
    let v1 = v0.push(fresh);
    lemma_first_match_props(v0, pred);
    assert(pred(v1[v0.len() as int]));
    lemma_first_match_at(v1, pred, v0.len() as int);
    let fm = first_match(v1, pred);
    let second = spec_toggle(v1[fm].upvote_type, v1[fm].inactive, requested);
    let v2 = v1.update(
        fm,
        (CommentUpvote {
            id,
            user_id: user,
            comment_id: comment,
            inactive: second.1,
            date: now,
            upvote_type: second.0,
        }),
    );
    let active_mine = |v: CommentUpvote|
        v.user_id == user && v.comment_id == comment && v.upvote_type == requested && !v.inactive;
    assert forall|j: int| 0 <= j < v2.len() implies !active_mine(#[trigger] v2[j]) by {
        if j < v0.len() {
            assert(v2[j] == v0[j]);
        }
    }
    v2.lemma_all_neg_filter_empty(active_mine);
}

} // verus!
