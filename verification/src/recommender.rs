//! The recommendation engine: from a user's play history, the set of tags
//! they have watched; from that, every ready, not yet played, servable video
//! sharing at least one tag, served as full records. A user with no history
//! gets nothing — no popularity fallback.

use vstd::prelude::*;

use crate::models::{Video, VideoStatus, VideoWithUser};
use crate::query::first_match;
use crate::store::{user_with_id, Store};
use crate::videos::{
    spec_played, tag_with_id, video_with_user_matches, visible_tag_link, spec_servable,
};

verus! {

/// Whether `user` has played some video carrying `tag`.
pub open spec fn spec_watched_tag(s: Store, user: i32, tag: i32) -> bool {
    exists|p: int, w: int|
        0 <= p < s.video_plays@.len() && 0 <= w < s.videos_tags@.len() && (
        #[trigger] s.video_plays@[p]).user_id == user && (#[trigger] s.videos_tags@[w]).video_id
            == s.video_plays@[p].video_id && s.videos_tags@[w].tag_id == tag
}

/// Whether some resolvable tag of the video with id `video` is one the user
/// has watched: the tag-overlap test of the recommendation query.
pub open spec fn spec_tag_overlap(s: Store, user: i32, video: i32) -> bool {
    exists|w: int|
        0 <= w < s.videos_tags@.len() && visible_tag_link(s, video)(
            #[trigger] s.videos_tags@[w],
        ) && spec_watched_tag(s, user, s.videos_tags@[w].tag_id)
}

/// A video the engine recommends to `user`: ready, not played by them,
/// servable, and overlapping their watched tags.
pub open spec fn spec_recommended(s: Store, user: i32) -> spec_fn(Video) -> bool {
    |v: Video|
        {
            &&& v.status == VideoStatus::Ready
            &&& !spec_played(s.video_plays@, user, v.id)
            &&& spec_servable(s, v)
            &&& spec_tag_overlap(s, user, v.id)
        }
}

impl Store {
    /// Whether `user` has played some video carrying `tag`.
    pub fn has_watched_tag(&self, user: i32, tag: i32) -> (r: bool)
        ensures
            r == spec_watched_tag(*self, user, tag),
    {
        let np: usize = self.video_plays.len();
        let mut p: usize = 0;
        while p < np
            invariant
                p <= np,
                np == self.video_plays@.len(),
                forall|p2: int, w2: int|
                    0 <= p2 < p && 0 <= w2 < self.videos_tags@.len() ==> !((
                    #[trigger] self.video_plays@[p2]).user_id == user && (
                    #[trigger] self.videos_tags@[w2]).video_id == self.video_plays@[p2].video_id
                        && self.videos_tags@[w2].tag_id == tag),
            decreases np - p,
        {
            if self.video_plays[p].user_id == user {
                let played_video = self.video_plays[p].video_id;
                let nw: usize = self.videos_tags.len();
                let mut w: usize = 0;
                while w < nw
                    invariant
                        w <= nw,
                        nw == self.videos_tags@.len(),
                        p < np,
                        np == self.video_plays@.len(),
                        self.video_plays@[p as int].user_id == user,
                        played_video == self.video_plays@[p as int].video_id,
                        forall|w2: int|
                            0 <= w2 < w ==> !((#[trigger] self.videos_tags@[w2]).video_id
                                == played_video && self.videos_tags@[w2].tag_id == tag),
                    decreases nw - w,
                {
                    if self.videos_tags[w].video_id == played_video && self.videos_tags[w].tag_id
                        == tag {
                        return true;
                    }
                    w = w + 1;
                }
            }
            p = p + 1;
        }
        false
    }

    /// Whether some resolvable tag of video `video_id` was watched by `user`.
    pub(crate) fn tag_overlap(&self, user: i32, video_id: i32) -> (r: bool)
        ensures
            r == spec_tag_overlap(*self, user, video_id),
    {
        let n: usize = self.videos_tags.len();
        let mut w: usize = 0;
        while w < n
            invariant
                w <= n,
                n == self.videos_tags@.len(),
                forall|w2: int|
                    0 <= w2 < w ==> !(visible_tag_link(*self, video_id)(
                        #[trigger] self.videos_tags@[w2],
                    ) && spec_watched_tag(*self, user, self.videos_tags@[w2].tag_id)),
            decreases n - w,
        {
            let vt = self.videos_tags[w];
            if vt.video_id == video_id && self.tag_index(vt.tag_id).is_some() && self
                .has_watched_tag(user, vt.tag_id) {
                return true;
            }
            w = w + 1;
        }
        false
    }

    /// The personalized candidate list of `user`: every recommended video,
    /// in table order, as full served records.
    pub fn get_recommended_videos(&self, user: i32) -> (r: Vec<VideoWithUser>)
        ensures
            ({
                let picked = self.videos@.filter(spec_recommended(*self, user));
                &&& r@.len() == picked.len()
                &&& forall|k: int|
                    0 <= k < picked.len() ==> video_with_user_matches(
                        #[trigger] r@[k],
                        picked[k],
                        *self,
                        user,
                    )
            }),
    {
        let ghost pred = spec_recommended(*self, user);
        let n: usize = self.videos.len();
        let mut r: Vec<VideoWithUser> = Vec::new();
        let mut i: usize = 0;
        proof {
            assert(self.videos@.take(0) =~= Seq::<Video>::empty());
            assert(Seq::<Video>::empty().filter(pred) =~= Seq::<Video>::empty()) by {
                reveal(Seq::filter);
            }
        }
        while i < n
            invariant
                i <= n,
                n == self.videos@.len(),
                pred == spec_recommended(*self, user),
                r@.len() == self.videos@.take(i as int).filter(pred).len(),
                forall|k: int|
                    0 <= k < r@.len() ==> video_with_user_matches(
                        #[trigger] r@[k],
                        self.videos@.take(i as int).filter(pred)[k],
                        *self,
                        user,
                    ),
            decreases n - i,
        {
            proof {
                let pre = self.videos@.take(i as int);
                let x = self.videos@[i as int];
                assert(self.videos@.take(i + 1) == pre.push(x));
                pre.lemma_filter_push(x, pred);
            }
            let ready = matches!(self.videos[i].status, VideoStatus::Ready);
            let v_id = self.videos[i].id;
            let v_user = self.videos[i].user_id;
            if ready && !self.has_played(user, v_id) && self.is_servable(v_user, v_id)
                && self.tag_overlap(user, v_id) {
                let rec = self.build_video_view(i, user);
                r.push(rec);
            }
            i = i + 1;
        }
        proof {
            assert(self.videos@.take(n as int) =~= self.videos@);
        }
        r
    }
}

/// A user whose whole history is plays of one video `w`, all of whose tag
/// links carry `tag`, is recommended only ready videos they have not played
/// that carry `tag` — and never `w` itself.
pub proof fn lemma_single_tag_history(s: Store, user: i32, w: i32, tag: i32)
    requires
        forall|p: int|
            0 <= p < s.video_plays@.len() && (#[trigger] s.video_plays@[p]).user_id == user
                ==> s.video_plays@[p].video_id == w,
        exists|p: int|
            0 <= p < s.video_plays@.len() && (#[trigger] s.video_plays@[p]).user_id == user
                && s.video_plays@[p].video_id == w,
        forall|l: int|
            0 <= l < s.videos_tags@.len() && (#[trigger] s.videos_tags@[l]).video_id == w
                ==> s.videos_tags@[l].tag_id == tag,
    ensures
        ({
            let picked = s.videos@.filter(spec_recommended(s, user));
            forall|k: int|
                0 <= k < picked.len() ==> {
                    let v = #[trigger] picked[k];
                    &&& v.status == VideoStatus::Ready
                    &&& !spec_played(s.video_plays@, user, v.id)
                    &&& v.id != w
                    &&& crate::videos::spec_video_has_tag(s, v.id, tag)
                }
        }),
{
    let picked = s.videos@.filter(spec_recommended(s, user));
    assert forall|k: int| 0 <= k < picked.len() implies {
        let v = #[trigger] picked[k];
        &&& v.status == VideoStatus::Ready
        &&& !spec_played(s.video_plays@, user, v.id)
        &&& v.id != w
        &&& crate::videos::spec_video_has_tag(s, v.id, tag)
    } by {
        s.videos@.lemma_filter_pred(spec_recommended(s, user), k);
        let v = picked[k];
        let l = choose|l: int|
            0 <= l < s.videos_tags@.len() && visible_tag_link(s, v.id)(
                #[trigger] s.videos_tags@[l],
            ) && spec_watched_tag(s, user, s.videos_tags@[l].tag_id);
        let t = s.videos_tags@[l].tag_id;
        let (p, l2): (int, int) = choose|p: int, l2: int|
            0 <= p < s.video_plays@.len() && 0 <= l2 < s.videos_tags@.len() && (
            #[trigger] s.video_plays@[p]).user_id == user && (
            #[trigger] s.videos_tags@[l2]).video_id == s.video_plays@[p].video_id
                && s.videos_tags@[l2].tag_id == t;
        assert(s.video_plays@[p].video_id == w);
        assert(s.videos_tags@[l2].tag_id == tag);
        assert(s.videos_tags@[l].video_id == v.id && s.videos_tags@[l].tag_id == tag);
        assert(crate::videos::spec_video_has_tag(s, v.id, tag));
        if v.id == w {
            let p0 = choose|p0: int|
                0 <= p0 < s.video_plays@.len() && (#[trigger] s.video_plays@[p0]).user_id == user
                    && s.video_plays@[p0].video_id == w;
            assert(crate::videos::play_by(user, w)(s.video_plays@[p0]));
            assert(spec_played(s.video_plays@, user, w));
            assert(false);
        }
    }
}

/// A user with no play history is recommended nothing: their watched tag set
/// is empty, so no video overlaps it.
pub proof fn lemma_no_history_no_recommendations(s: Store, user: i32)
    requires
        forall|p: int|
            0 <= p < s.video_plays@.len() ==> (#[trigger] s.video_plays@[p]).user_id != user,
    ensures
        s.videos@.filter(spec_recommended(s, user)).len() == 0,
{
    assert forall|i: int| 0 <= i < s.videos@.len() implies !(spec_recommended(s, user)(
        #[trigger] s.videos@[i],
    )) by {
        let v = s.videos@[i];
        if spec_recommended(s, user)(v) {
            let w = choose|w: int|
                0 <= w < s.videos_tags@.len() && visible_tag_link(s, v.id)(
                    #[trigger] s.videos_tags@[w],
                ) && spec_watched_tag(s, user, s.videos_tags@[w].tag_id);
            let tag = s.videos_tags@[w].tag_id;
            let (p, w2): (int, int) = choose|p: int, w2: int|
                0 <= p < s.video_plays@.len() && 0 <= w2 < s.videos_tags@.len() && (
                #[trigger] s.video_plays@[p]).user_id == user && (
                #[trigger] s.videos_tags@[w2]).video_id == s.video_plays@[p].video_id
                    && s.videos_tags@[w2].tag_id == tag;
            assert(s.video_plays@[p].user_id == user);
            assert(false);
        }
    }
    s.videos@.lemma_all_neg_filter_empty(spec_recommended(s, user));
}

} // verus!
