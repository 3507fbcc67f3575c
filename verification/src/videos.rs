//! The video catalog: the joined video view (uploader, tags, counts, the
//! viewer's own vote flags), play recording, uploads, edits, and the tag
//! lists. A video is served only with its uploader present and at least one
//! resolvable tag.

use vstd::prelude::*;

use crate::models::{
    PopularTag, SafeUser, Tag, UpvoteType, Video, VideoPlay, VideoTag, VideoWithUser,
};
use crate::ranking::{lemma_permutation_index, sort_pairs_desc};
use crate::TOP_LIMIT;
use crate::query::{first_match, lemma_first_match_at, lemma_first_match_none, some_match};
use crate::store::{get_safe_user_fields, safe_user_matches, user_with_id, Store};
use crate::tokens::spec_channel_token_count;
use crate::upvotes::{spec_video_vote_count, video_with_id};
use crate::models::{UserType, VideoStatus};
use crate::text::str_contains;
use crate::RECENTLY_WATCHED_SECS;

verus! {

/// Path parameter of the single-video query.
#[derive(Clone, Copy, Debug)]
pub struct GetVideoParams {
    pub video_id: i32,
}

/// The optional, conjunctively combined filters of the video search.
#[derive(Debug)]
pub struct GetVideosBody {
    pub title: Option<String>,
    pub tag: Option<i32>,
    pub user: Option<i32>,
    pub recommended: Option<bool>,
    pub subscriptions: Option<bool>,
    pub upvoted: Option<bool>,
    pub recently_watched: Option<bool>,
}

/// Request to record one playback.
#[derive(Clone, Copy, Debug)]
pub struct RecordPlayBody {
    pub video: i32,
}

/// Request to retitle or redescribe an owned video.
#[derive(Debug)]
pub struct UpdateVideoBody {
    pub video: i32,
    pub title: Option<String>,
    pub description: Option<String>,
}

/// The caller-supplied fields of an upload.
#[derive(Debug)]
pub struct UploadVideoData {
    pub video_title: String,
    pub video_description: Option<String>,
    pub video_tags: Vec<i32>,
}

/// Why an upload or a play record was refused.
#[derive(Clone, Copy, PartialEq, Eq, Structural, Debug)]
pub enum VideoError {
    /// Only channels may upload.
    NotChannel,
    /// A named tag does not exist.
    UnknownTag,
    /// The played video does not exist.
    VideoMissing,
}

/// Predicate picking the tag row with this id.
pub open spec fn tag_with_id(id: i32) -> spec_fn(Tag) -> bool {
    |t: Tag| t.id == id
}

/// Predicate picking the tag links carrying one tag.
pub open spec fn link_of_tag(tag: i32) -> spec_fn(VideoTag) -> bool {
    |vt: VideoTag| vt.tag_id == tag
}

/// How many tag links carry `tag`.
pub open spec fn spec_tag_use_count(s: Store, tag: i32) -> nat {
    s.videos_tags@.filter(link_of_tag(tag)).len()
}

/// Predicate picking the plays of one video.
pub open spec fn play_of_video(video: i32) -> spec_fn(VideoPlay) -> bool {
    |p: VideoPlay| p.video_id == video
}

/// Predicate picking the plays of `user` on `video`.
pub open spec fn play_by(user: i32, video: i32) -> spec_fn(VideoPlay) -> bool {
    |p: VideoPlay| p.user_id == user && p.video_id == video
}

/// How often a video was played.
pub open spec fn spec_play_count(plays: Seq<VideoPlay>, video: i32) -> nat {
    plays.filter(play_of_video(video)).len()
}

/// Whether `user` ever played `video`.
pub open spec fn spec_played(plays: Seq<VideoPlay>, user: i32, video: i32) -> bool {
    some_match(plays, play_by(user, video))
}

/// Whether `viewer` holds an active vote of direction `t` on `video`.
pub open spec fn spec_viewer_voted(
    votes: Seq<crate::models::VideoUpvote>,
    viewer: i32,
    video: i32,
    t: UpvoteType,
) -> bool {
    some_match(
        votes,
        |v: crate::models::VideoUpvote|
            v.user_id == viewer && v.video_id == video && v.upvote_type == t && !v.inactive,
    )
}

/// Predicate picking the tag links of `video` whose tag row exists: the links
/// the tag list of a served video resolves.
pub open spec fn visible_tag_link(s: Store, video: i32) -> spec_fn(VideoTag) -> bool {
    |vt: VideoTag| vt.video_id == video && first_match(s.tags@, tag_with_id(vt.tag_id)) >= 0
}

/// What the tag list of a served video must hold: one entry per resolvable
/// link, in link order, carrying the tag row's fields.
pub open spec fn tags_match(rec_tags: Seq<Tag>, s: Store, video: i32) -> bool {
    let picked = s.videos_tags@.filter(visible_tag_link(s, video));
    &&& rec_tags.len() == picked.len()
    &&& forall|k: int|
        0 <= k < picked.len() ==> ((#[trigger] rec_tags[k]).id == picked[k].tag_id
            && rec_tags[k].name@ == s.tags@[first_match(s.tags@, tag_with_id(picked[k].tag_id))].name@)
}

/// What every served video record must carry, relative to its row, the
/// requesting viewer, and the store it was read from.
pub open spec fn video_with_user_matches(
    rec: VideoWithUser,
    v: Video,
    s: Store,
    viewer: i32,
) -> bool {
    let ui = first_match(s.users@, user_with_id(v.user_id));
    &&& rec.id == v.id
    &&& rec.file_name@ == v.file_name@
    &&& ui >= 0
    &&& safe_user_matches(
        rec.user,
        s.users@[ui],
        spec_channel_token_count(s.channels_tokens@, v.user_id) as u64,
    )
    &&& rec.title@ == v.title@
    &&& (rec.description is Some <==> v.description is Some)
    &&& (rec.description is Some ==> rec.description->0@ == v.description->0@)
    &&& rec.upload_date == v.upload_date
    &&& rec.upvoted == spec_viewer_voted(s.video_upvotes@, viewer, v.id, UpvoteType::Up)
    &&& rec.downvoted == spec_viewer_voted(s.video_upvotes@, viewer, v.id, UpvoteType::Down)
    &&& rec.upvotes == spec_video_vote_count(s.video_upvotes@, v.id, UpvoteType::Up)
    &&& rec.downvotes == spec_video_vote_count(s.video_upvotes@, v.id, UpvoteType::Down)
    &&& rec.plays == spec_play_count(s.video_plays@, v.id)
    &&& tags_match(rec.tags@, s, v.id)
}

/// Whether the video with id `video` carries `tag`.
pub open spec fn spec_video_has_tag(s: Store, video: i32, tag: i32) -> bool {
    some_match(s.videos_tags@, |vt: VideoTag| vt.video_id == video && vt.tag_id == tag)
}

/// Whether `viewer` played `video` within the last
/// [`RECENTLY_WATCHED_SECS`] seconds before `now`.
pub open spec fn spec_recently_watched(s: Store, viewer: i32, video: i32, now: u64) -> bool {
    some_match(
        s.video_plays@,
        |p: VideoPlay| p.user_id == viewer && p.video_id == video && p.date
            + RECENTLY_WATCHED_SECS >= now,
    )
}

/// A video the search returns to `viewer`: ready, servable, and passing
/// every filter the request populates, conjunctively.
pub open spec fn search_hit(s: Store, viewer: i32, body: GetVideosBody, now: u64) -> spec_fn(
    Video,
) -> bool {
    |v: Video|
        {
            &&& v.status == VideoStatus::Ready
            &&& spec_servable(s, v)
            &&& (body.title is Some ==> (crate::text::spec_contains_str(v.title@, body.title->0@)
                || (v.description is Some && crate::text::spec_contains_str(
                v.description->0@,
                body.title->0@,
            ))))
            &&& (body.tag is Some ==> spec_video_has_tag(s, v.id, body.tag->0))
            &&& (body.user is Some ==> v.user_id == body.user->0)
            &&& (body.recently_watched == Some(true) ==> spec_recently_watched(
                s,
                viewer,
                v.id,
                now,
            ))
            &&& (body.subscriptions == Some(true) ==> crate::tokens::spec_has_active_token(
                s,
                viewer,
                v.user_id,
                now,
            ))
            &&& (body.upvoted == Some(true) ==> spec_viewer_voted(
                s.video_upvotes@,
                viewer,
                v.id,
                UpvoteType::Up,
            ))
        }
}

/// A video row the catalog serves: uploader present and at least one
/// resolvable tag.
pub open spec fn spec_servable(s: Store, v: Video) -> bool {
    &&& first_match(s.users@, user_with_id(v.user_id)) >= 0
    &&& some_match(s.videos_tags@, visible_tag_link(s, v.id))
}

/// The upload file extension for a supported content type, or `None` for
/// any other type: the rule by which incoming multipart files are named.
pub fn extension_for_mime(mime: &str) -> (r: Option<&str>)
    ensures
        mime@ == "video/mpeg"@ ==> (r is Some && r->0@ == "mpeg"@),
        mime@ == "video/mp4"@ ==> (r is Some && r->0@ == "mp4"@),
        mime@ == "image/png"@ ==> (r is Some && r->0@ == "png"@),
        mime@ == "image/jpeg"@ ==> (r is Some && r->0@ == "jpeg"@),
        mime@ == "video/mkv"@ ==> (r is Some && r->0@ == "mkv"@),
        r is Some ==> (mime@ == "video/mpeg"@ || mime@ == "video/mp4"@ || mime@ == "image/png"@
            || mime@ == "image/jpeg"@ || mime@ == "video/mkv"@),
{
    broadcast use vstd::string::group_string_axioms;

    proof {
        reveal_strlit("video/mpeg");
        reveal_strlit("video/mp4");
        reveal_strlit("image/png");
        reveal_strlit("image/jpeg");
        reveal_strlit("video/mkv");
        assert("video/mpeg"@.len() == 10 && "video/mp4"@.len() == 9 && "image/png"@.len() == 9
            && "image/jpeg"@.len() == 10 && "video/mkv"@.len() == 9);
        assert("video/mp4"@[0] == 'v' && "image/png"@[0] == 'i' && "video/mkv"@[8] == 'v'
            && "video/mp4"@[8] == '4' && "video/mpeg"@[0] == 'v' && "image/jpeg"@[0] == 'i');
    }
    if crate::text::str_eq(mime, "video/mpeg") {
        Some("mpeg")
    } else if crate::text::str_eq(mime, "video/mp4") {
        Some("mp4")
    } else if crate::text::str_eq(mime, "image/png") {
        Some("png")
    } else if crate::text::str_eq(mime, "image/jpeg") {
        Some("jpeg")
    } else if crate::text::str_eq(mime, "video/mkv") {
        Some("mkv")
    } else {
        None
    }
}

impl Store {
    /// Index of the tag row with this id, if any.
    pub(crate) fn tag_index(&self, id: i32) -> (r: Option<usize>)
        ensures
            match r {
                Some(i) => {
                    &&& i < self.tags@.len()
                    &&& i == first_match(self.tags@, tag_with_id(id))
                    &&& self.tags@[i as int].id == id
                },
                None => first_match(self.tags@, tag_with_id(id)) < 0,
            },
    {
        let n: usize = self.tags.len();
        let mut i: usize = 0;
        while i < n
            invariant
                i <= n,
                n == self.tags@.len(),
                forall|j: int| 0 <= j < i ==> !(tag_with_id(id)(#[trigger] self.tags@[j])),
            decreases n - i,
        {
            if self.tags[i].id == id {
                proof {
                    lemma_first_match_at(self.tags@, tag_with_id(id), i as int);
                }
                return Some(i);
            }
            i = i + 1;
        }
        proof {
            lemma_first_match_none(self.tags@, tag_with_id(id));
        }
        None
    }

    /// Whether `user_id` ever played `video_id`.
    pub fn has_played(&self, user_id: i32, video_id: i32) -> (r: bool)
        ensures
            r == spec_played(self.video_plays@, user_id, video_id),
    {
        let n: usize = self.video_plays.len();
        let mut i: usize = 0;
        while i < n
            invariant
                i <= n,
                n == self.video_plays@.len(),
                forall|j: int|
                    0 <= j < i ==> !(play_by(user_id, video_id)(#[trigger] self.video_plays@[j])),
            decreases n - i,
        {
            let p = &self.video_plays[i];
            if p.user_id == user_id && p.video_id == video_id {
                return true;
            }
            i = i + 1;
        }
        false
    }

    /// How often `video_id` was played.
    pub fn count_video_plays(&self, video_id: i32) -> (r: u64)
        ensures
            r == spec_play_count(self.video_plays@, video_id),
    {
        let n: usize = self.video_plays.len();
        let mut count: u64 = 0;
        let mut i: usize = 0;
        proof {
            assert(self.video_plays@.take(0) =~= Seq::<VideoPlay>::empty());
            assert(Seq::<VideoPlay>::empty().filter(play_of_video(video_id)) =~= Seq::<
                VideoPlay,
            >::empty()) by {
                reveal(Seq::filter);
            }
        }
        while i < n
            invariant
                i <= n,
                n == self.video_plays@.len(),
                count == self.video_plays@.take(i as int).filter(play_of_video(video_id)).len(),
                count <= i,
            decreases n - i,
        {
            proof {
                let pre = self.video_plays@.take(i as int);
                let x = self.video_plays@[i as int];
                assert(self.video_plays@.take(i + 1) == pre.push(x));
                pre.lemma_filter_push(x, play_of_video(video_id));
            }
            if self.video_plays[i].video_id == video_id {
                count = count + 1;
            }
            i = i + 1;
        }
        proof {
            assert(self.video_plays@.take(n as int) =~= self.video_plays@);
        }
        count
    }

    /// Whether `viewer` holds an active vote of direction `t` on `video_id`.
    pub fn viewer_voted(&self, viewer: i32, video_id: i32, t: UpvoteType) -> (r: bool)
        ensures
            r == spec_viewer_voted(self.video_upvotes@, viewer, video_id, t),
    {
        let ghost p = |v: crate::models::VideoUpvote|
            v.user_id == viewer && v.video_id == video_id && v.upvote_type == t && !v.inactive;
        let n: usize = self.video_upvotes.len();
        let mut i: usize = 0;
        while i < n
            invariant
                i <= n,
                n == self.video_upvotes@.len(),
                p == (|v: crate::models::VideoUpvote|
                    v.user_id == viewer && v.video_id == video_id && v.upvote_type == t
                        && !v.inactive),
                forall|j: int| 0 <= j < i ==> !p(#[trigger] self.video_upvotes@[j]),
            decreases n - i,
        {
            let v = &self.video_upvotes[i];
            if v.user_id == viewer && v.video_id == video_id && !v.inactive {
                let same = v.upvote_type == t;
                if same {
                    return true;
                }
            }
            i = i + 1;
        }
        false
    }

    /// The resolvable tags of `video_id`, in link order.
    pub fn collect_video_tags(&self, video_id: i32) -> (r: Vec<Tag>)
        ensures
            tags_match(r@, *self, video_id),
    {
        let ghost p = visible_tag_link(*self, video_id);
        let n: usize = self.videos_tags.len();
        let mut r: Vec<Tag> = Vec::new();
        let mut i: usize = 0;
        proof {
            assert(self.videos_tags@.take(0) =~= Seq::<VideoTag>::empty());
            assert(Seq::<VideoTag>::empty().filter(p) =~= Seq::<VideoTag>::empty()) by {
                reveal(Seq::filter);
            }
        }
        while i < n
            invariant
                i <= n,
                n == self.videos_tags@.len(),
                p == visible_tag_link(*self, video_id),
                r@.len() == self.videos_tags@.take(i as int).filter(p).len(),
                forall|k: int|
                    0 <= k < r@.len() ==> ({
                        let link = self.videos_tags@.take(i as int).filter(p)[k];
                        (#[trigger] r@[k]).id == link.tag_id && r@[k].name@ == self.tags@[
                            first_match(self.tags@, tag_with_id(link.tag_id))].name@
                    }),
            decreases n - i,
        {
            proof {
                let pre = self.videos_tags@.take(i as int);
                let x = self.videos_tags@[i as int];
                assert(self.videos_tags@.take(i + 1) == pre.push(x));
                pre.lemma_filter_push(x, p);
            }
            let vt = self.videos_tags[i];
            if vt.video_id == video_id {
                match self.tag_index(vt.tag_id) {
                    Some(ti) => {
                        let tag = Tag { id: vt.tag_id, name: self.tags[ti].name.clone() };
                        r.push(tag);
                    },
                    None => {},
                }
            }
            i = i + 1;
        }
        proof {
            assert(self.videos_tags@.take(n as int) =~= self.videos_tags@);
        }
        r
    }

    /// Builds the served record of the video row at `vi` for `viewer`.
    pub(crate) fn build_video_view(&self, vi: usize, viewer: i32) -> (rec: VideoWithUser)
        requires
            vi < self.videos@.len(),
            first_match(self.users@, user_with_id(self.videos@[vi as int].user_id)) >= 0,
        ensures
            video_with_user_matches(rec, self.videos@[vi as int], *self, viewer),
    {
        let v = &self.videos[vi];
        let ui = match self.user_index(v.user_id) {
            Some(ui) => ui,
            None => {
                proof {
                    assert(false);
                }
                0
            },
        };
        let subscribers = self.count_channel_tokens(v.user_id);
        let user: SafeUser = get_safe_user_fields(&self.users[ui], subscribers);
        let upvoted = self.viewer_voted(viewer, v.id, UpvoteType::Up);
        let downvoted = self.viewer_voted(viewer, v.id, UpvoteType::Down);
        let upvotes = self.count_video_votes(v.id, UpvoteType::Up);
        let downvotes = self.count_video_votes(v.id, UpvoteType::Down);
        let plays = self.count_video_plays(v.id);
        let tags = self.collect_video_tags(v.id);
        VideoWithUser {
            id: v.id,
            file_name: v.file_name.clone(),
            user,
            title: v.title.clone(),
            description: crate::store::clone_opt_string(&v.description),
            upload_date: v.upload_date,
            upvoted,
            downvoted,
            upvotes,
            downvotes,
            plays,
            tags,
        }
    }

    /// Whether the catalog can serve this video row: its uploader exists and
    /// at least one of its tag links resolves.
    pub(crate) fn is_servable(&self, v_user_id: i32, v_id: i32) -> (r: bool)
        ensures
            r == (first_match(self.users@, user_with_id(v_user_id)) >= 0 && some_match(
                self.videos_tags@,
                visible_tag_link(*self, v_id),
            )),
    {
        if self.user_index(v_user_id).is_none() {
            return false;
        }
        let ghost p = visible_tag_link(*self, v_id);
        let n: usize = self.videos_tags.len();
        let mut i: usize = 0;
        while i < n
            invariant
                i <= n,
                n == self.videos_tags@.len(),
                p == visible_tag_link(*self, v_id),
                first_match(self.users@, user_with_id(v_user_id)) >= 0,
                forall|j: int| 0 <= j < i ==> !p(#[trigger] self.videos_tags@[j]),
            decreases n - i,
        {
            let vt = &self.videos_tags[i];
            if vt.video_id == v_id && self.tag_index(vt.tag_id).is_some() {
                return true;
            }
            i = i + 1;
        }
        false
    }

    /// Whether the video with id `video` carries `tag`.
    pub(crate) fn video_has_tag(&self, video: i32, tag: i32) -> (r: bool)
        ensures
            r == spec_video_has_tag(*self, video, tag),
    {
        let ghost p = |vt: VideoTag| vt.video_id == video && vt.tag_id == tag;
        let n: usize = self.videos_tags.len();
        let mut i: usize = 0;
        while i < n
            invariant
                i <= n,
                n == self.videos_tags@.len(),
                p == (|vt: VideoTag| vt.video_id == video && vt.tag_id == tag),
                forall|j: int| 0 <= j < i ==> !p(#[trigger] self.videos_tags@[j]),
            decreases n - i,
        {
            let vt = &self.videos_tags[i];
            if vt.video_id == video && vt.tag_id == tag {
                return true;
            }
            i = i + 1;
        }
        false
    }

    /// Whether `viewer` played `video` within the recently-watched window
    /// before `now`.
    pub(crate) fn recently_watched(&self, viewer: i32, video: i32, now: u64) -> (r: bool)
        ensures
            r == spec_recently_watched(*self, viewer, video, now),
    {
        let ghost p = |p2: VideoPlay|
            p2.user_id == viewer && p2.video_id == video && p2.date + RECENTLY_WATCHED_SECS >= now;
        let n: usize = self.video_plays.len();
        let mut i: usize = 0;
        while i < n
            invariant
                i <= n,
                n == self.video_plays@.len(),
                p == (|p2: VideoPlay|
                    p2.user_id == viewer && p2.video_id == video && p2.date + RECENTLY_WATCHED_SECS
                        >= now),
                forall|j: int| 0 <= j < i ==> !p(#[trigger] self.video_plays@[j]),
            decreases n - i,
        {
            let play = &self.video_plays[i];
            if play.user_id == viewer && play.video_id == video {
                let recent = if now <= RECENTLY_WATCHED_SECS {
                    true
                } else {
                    play.date >= now - RECENTLY_WATCHED_SECS
                };
                if recent {
                    return true;
                }
            }
            i = i + 1;
        }
        false
    }

    /// The video search: with the `recommended` flag present the request is
    /// answered by the recommendation engine; otherwise every ready,
    /// servable video passing the populated filters is served, in table
    /// order.
    pub fn get_videos(&self, viewer: i32, body: &GetVideosBody, now: u64) -> (r: Vec<
        VideoWithUser,
    >)
        ensures
            body.recommended is Some ==> ({
                let picked = self.videos@.filter(
                    crate::recommender::spec_recommended(*self, viewer),
                );
                &&& r@.len() == picked.len()
                &&& forall|k: int|
                    0 <= k < picked.len() ==> video_with_user_matches(
                        #[trigger] r@[k],
                        picked[k],
                        *self,
                        viewer,
                    )
            }),
            body.recommended is None ==> ({
                let picked = self.videos@.filter(search_hit(*self, viewer, *body, now));
                &&& r@.len() == picked.len()
                &&& forall|k: int|
                    0 <= k < picked.len() ==> video_with_user_matches(
                        #[trigger] r@[k],
                        picked[k],
                        *self,
                        viewer,
                    )
            }),
    {
        if body.recommended.is_some() {
            return self.get_recommended_videos(viewer);
        }
        let ghost pred = search_hit(*self, viewer, *body, now);
        let n: usize = self.videos.len();
        let mut r: Vec<VideoWithUser> = Vec::new();
        let mut i: usize = 0;
        proof {
            assert(self.videos@.take(0) =~= Seq::<Video>::empty());
            assert(Seq::<Video>::empty().filter(pred) =~= Seq::<Video>::empty()) by {
                reveal(Seq::filter);
            }
        }
        while i < n
            invariant
                i <= n,
                n == self.videos@.len(),
                pred == search_hit(*self, viewer, *body, now),
                r@.len() == self.videos@.take(i as int).filter(pred).len(),
                forall|k: int|
                    0 <= k < r@.len() ==> video_with_user_matches(
                        #[trigger] r@[k],
                        self.videos@.take(i as int).filter(pred)[k],
                        *self,
                        viewer,
                    ),
            decreases n - i,
        {
            proof {
                let pre = self.videos@.take(i as int);
                let x = self.videos@[i as int];
                assert(self.videos@.take(i + 1) == pre.push(x));
                pre.lemma_filter_push(x, pred);
            }
            let v_id = self.videos[i].id;
            let v_user = self.videos[i].user_id;
            let mut hit = matches!(self.videos[i].status, VideoStatus::Ready) && self.is_servable(
                v_user,
                v_id,
            );
            if hit {
                hit = match &body.title {
                    None => true,
                    Some(q) => {
                        let in_title = str_contains(self.videos[i].title.as_str(), q.as_str());
                        let in_description = match &self.videos[i].description {
                            Some(d) => str_contains(d.as_str(), q.as_str()),
                            None => false,
                        };
                        in_title || in_description
                    },
                };
            }
            if hit {
                hit = match body.tag {
                    None => true,
                    Some(tag) => self.video_has_tag(v_id, tag),
                };
            }
            if hit {
                hit = match body.user {
                    None => true,
                    Some(u) => v_user == u,
                };
            }
            if hit {
                hit = match body.recently_watched {
                    Some(true) => self.recently_watched(viewer, v_id, now),
                    _ => true,
                };
            }
            if hit {
                hit = match body.subscriptions {
                    Some(true) => self.user_has_active_token(viewer, v_user, now),
                    _ => true,
                };
            }
            if hit {
                hit = match body.upvoted {
                    Some(true) => self.viewer_voted(viewer, v_id, UpvoteType::Up),
                    _ => true,
                };
            }
            if hit {
                let rec = self.build_video_view(i, viewer);
                r.push(rec);
            }
            i = i + 1;
        }
        proof {
            assert(self.videos@.take(n as int) =~= self.videos@);
        }
        r
    }

    /// The single-video view: the row with this id, served for `viewer`, or
    /// `None` when it is missing or not servable.
    pub fn get_video(&self, video_id: i32, viewer: i32) -> (r: Option<VideoWithUser>)
        ensures
            ({
                let vi = first_match(self.videos@, video_with_id(video_id));
                match r {
                    Some(rec) => vi >= 0 && spec_servable(*self, self.videos@[vi])
                        && video_with_user_matches(rec, self.videos@[vi], *self, viewer),
                    None => vi < 0 || !spec_servable(*self, self.videos@[vi]),
                }
            }),
    {
        match self.video_index(video_id) {
            None => None,
            Some(vi) => {
                let v_user = self.videos[vi].user_id;
                let v_id = self.videos[vi].id;
                if self.is_servable(v_user, v_id) {
                    Some(self.build_video_view(vi, viewer))
                } else {
                    None
                }
            },
        }
    }

    /// Records one playback of `video` by `user_id` at `now`; refused when
    /// the video does not exist.
    pub fn record_play(&mut self, user_id: i32, video: i32, now: u64) -> (r: Result<
        (),
        VideoError,
    >)
        requires
            old(self).wf(),
            old(self).next_id < i32::MAX,
        ensures
            final(self).wf(),
            first_match(old(self).videos@, video_with_id(video)) >= 0 ==> ({
                &&& r is Ok
                &&& final(self).video_plays@ == old(self).video_plays@.push(
                    (VideoPlay { id: old(self).next_id, user_id, video_id: video, date: now }),
                )
                &&& final(self).next_id == old(self).next_id + 1
                &&& final(self).users == old(self).users
                &&& final(self).tokens == old(self).tokens
                &&& final(self).channels_tokens == old(self).channels_tokens
                &&& final(self).token_transactions == old(self).token_transactions
                &&& final(self).videos == old(self).videos
                &&& final(self).tags == old(self).tags
                &&& final(self).videos_tags == old(self).videos_tags
                &&& final(self).comments == old(self).comments
                &&& final(self).comment_upvotes == old(self).comment_upvotes
                &&& final(self).video_upvotes == old(self).video_upvotes
            }),
            first_match(old(self).videos@, video_with_id(video)) < 0 ==> (r == Result::<
                (),
                VideoError,
            >::Err(VideoError::VideoMissing) && *final(self) == *old(self)),
    {
        if self.video_index(video).is_none() {
            return Err(VideoError::VideoMissing);
        }
        let play = VideoPlay { id: self.next_id, user_id, video_id: video, date: now };
        self.video_plays.push(play);
        self.next_id = self.next_id + 1;
        Ok(())
    }

    /// Applies the provided title and description to the video `body.video`
    /// if the caller owns it; silently a no-op otherwise, the way an
    /// update scoped to an owner filter behaves.
    pub fn update_video(&mut self, user_id: i32, body: &UpdateVideoBody)
        requires
            old(self).wf(),
        ensures
            final(self).wf(),
            ({
                let owned = |v: Video| v.id == body.video && v.user_id == user_id;
                let vi = first_match(old(self).videos@, owned);
                &&& vi >= 0 ==> ({
                    let v = old(self).videos@[vi];
                    &&& final(self).videos@.len() == old(self).videos@.len()
                    &&& forall|j: int|
                        0 <= j < old(self).videos@.len() && j != vi
                            ==> #[trigger] final(self).videos@[j] == old(self).videos@[j]
                    &&& final(self).videos@[vi].id == v.id
                    &&& final(self).videos@[vi].user_id == v.user_id
                    &&& final(self).videos@[vi].file_name@ == v.file_name@
                    &&& final(self).videos@[vi].upload_date == v.upload_date
                    &&& final(self).videos@[vi].status == v.status
                    &&& final(self).videos@[vi].title@ == (if body.title is Some {
                        body.title->0@
                    } else {
                        v.title@
                    })
                    &&& (body.description is Some ==> crate::store::opt_str_eq(
                        final(self).videos@[vi].description,
                        body.description,
                    ))
                    &&& (body.description is None ==> crate::store::opt_str_eq(
                        final(self).videos@[vi].description,
                        v.description,
                    ))
                })
                &&& vi < 0 ==> *final(self) == *old(self)
                &&& final(self).users == old(self).users
                &&& final(self).tokens == old(self).tokens
                &&& final(self).channels_tokens == old(self).channels_tokens
                &&& final(self).token_transactions == old(self).token_transactions
                &&& final(self).tags == old(self).tags
                &&& final(self).videos_tags == old(self).videos_tags
                &&& final(self).video_plays == old(self).video_plays
                &&& final(self).comments == old(self).comments
                &&& final(self).comment_upvotes == old(self).comment_upvotes
                &&& final(self).video_upvotes == old(self).video_upvotes
                &&& final(self).next_id == old(self).next_id
            }),
    {
        let ghost owned = |v: Video| v.id == body.video && v.user_id == user_id;
        let n: usize = self.videos.len();
        let mut i: usize = 0;
        while i < n
            invariant
                i <= n,
                n == self.videos@.len(),
                *self == *old(self),
                old(self).wf(),
                owned == (|v: Video| v.id == body.video && v.user_id == user_id),
                forall|j: int| 0 <= j < i ==> !owned(#[trigger] self.videos@[j]),
            decreases n - i,
        {
            if self.videos[i].id == body.video && self.videos[i].user_id == user_id {
                proof {
                    lemma_first_match_at(self.videos@, owned, i as int);
                }
                let updated = Video {
                    id: self.videos[i].id,
                    file_name: self.videos[i].file_name.clone(),
                    user_id: self.videos[i].user_id,
                    title: match &body.title {
                        Some(t) => t.clone(),
                        None => self.videos[i].title.clone(),
                    },
                    description: match &body.description {
                        Some(d) => Some(d.clone()),
                        None => crate::store::clone_opt_string(&self.videos[i].description),
                    },
                    upload_date: self.videos[i].upload_date,
                    status: self.videos[i].status,
                };
                self.videos[i] = updated;
                return ;
            }
            i = i + 1;
        }
        proof {
            lemma_first_match_none(self.videos@, owned);
        }
    }

    /// The whole tag table, as the upload form offers it.
    pub fn get_available_tags(&self) -> (r: Vec<Tag>)
        ensures
            r@.len() == self.tags@.len(),
            forall|k: int|
                0 <= k < self.tags@.len() ==> ((#[trigger] r@[k]).id == self.tags@[k].id
                    && r@[k].name@ == self.tags@[k].name@),
    {
        let n: usize = self.tags.len();
        let mut r: Vec<Tag> = Vec::new();
        let mut i: usize = 0;
        while i < n
            invariant
                i <= n,
                n == self.tags@.len(),
                r@.len() == i,
                forall|k: int|
                    0 <= k < i ==> ((#[trigger] r@[k]).id == self.tags@[k].id && r@[k].name@
                        == self.tags@[k].name@),
            decreases n - i,
        {
            let tag = Tag { id: self.tags[i].id, name: self.tags[i].name.clone() };
            r.push(tag);
            i = i + 1;
        }
        r
    }

    /// How many tag links carry `tag`: the videos tagged with it.
    pub fn count_tag_uses(&self, tag: i32) -> (r: u64)
        ensures
            r == spec_tag_use_count(*self, tag),
    {
        let n: usize = self.videos_tags.len();
        let mut count: u64 = 0;
        let mut i: usize = 0;
        proof {
            assert(self.videos_tags@.take(0) =~= Seq::<VideoTag>::empty());
            assert(Seq::<VideoTag>::empty().filter(link_of_tag(tag)) =~= Seq::<
                VideoTag,
            >::empty()) by {
                reveal(Seq::filter);
            }
        }
        while i < n
            invariant
                i <= n,
                n == self.videos_tags@.len(),
                count == self.videos_tags@.take(i as int).filter(link_of_tag(tag)).len(),
                count <= i,
            decreases n - i,
        {
            proof {
                let pre = self.videos_tags@.take(i as int);
                let x = self.videos_tags@[i as int];
                assert(self.videos_tags@.take(i + 1) == pre.push(x));
                pre.lemma_filter_push(x, link_of_tag(tag));
            }
            if self.videos_tags[i].tag_id == tag {
                count = count + 1;
            }
            i = i + 1;
        }
        proof {
            assert(self.videos_tags@.take(n as int) =~= self.videos_tags@);
        }
        count
    }

    /// The ten most used tags, each with its use count, most used first.
    /// Entries carry real tag rows with their exact counts, and no tag with
    /// a higher count than a shown one is left out.
    pub fn get_popular_tags(&self) -> (r: Vec<PopularTag>)
        ensures
            r@.len() == (if self.tags@.len() < TOP_LIMIT {
                self.tags@.len() as int
            } else {
                TOP_LIMIT as int
            }),
            forall|k1: int, k2: int|
                0 <= k1 < k2 < r@.len() ==> (#[trigger] r@[k1]).count >= (#[trigger] r@[k2]).count,
            forall|k: int|
                0 <= k < r@.len() ==> exists|t: int|
                    0 <= t < self.tags@.len() && (#[trigger] r@[k]).id == self.tags@[t].id
                        && r@[k].name@ == self.tags@[t].name@ && r@[k].count == spec_tag_use_count(
                        *self,
                        self.tags@[t].id,
                    ),
            forall|t: int|
                0 <= t < self.tags@.len() && r@.len() > 0 && spec_tag_use_count(
                    *self,
                    (#[trigger] self.tags@[t]).id,
                ) > r@[r@.len() - 1].count ==> exists|k: int|
                    0 <= k < r@.len() && (#[trigger] r@[k]).id == self.tags@[t].id,
    {
        let ntags: usize = self.tags.len();
        let mut pairs: Vec<(usize, u64)> = Vec::new();
        let mut t: usize = 0;
        while t < ntags
            invariant
                t <= ntags,
                ntags == self.tags@.len(),
                pairs@.len() == t,
                forall|k: int|
                    0 <= k < t ==> ((#[trigger] pairs@[k]).0 == k && pairs@[k].1
                        == spec_tag_use_count(*self, self.tags@[k].id)),
            decreases ntags - t,
        {
            let c = self.count_tag_uses(self.tags[t].id);
            pairs.push((t, c));
            t = t + 1;
        }
        let sorted = sort_pairs_desc(pairs);
        proof {
            assert forall|p: int| 0 <= p < sorted@.len() implies ((#[trigger] sorted@[p]).0 < ntags
                && sorted@[p].1 == spec_tag_use_count(
                *self,
                self.tags@[sorted@[p].0 as int].id,
            )) by {
                lemma_permutation_index(sorted@, pairs@, p);
                let q = choose|q: int| 0 <= q < pairs@.len() && pairs@[q] == sorted@[p];
                assert(pairs@[q].0 == q);
            }
        }
        let limit: usize = if sorted.len() < TOP_LIMIT {
            sorted.len()
        } else {
            TOP_LIMIT
        };
        let mut r: Vec<PopularTag> = Vec::new();
        let mut k: usize = 0;
        while k < limit
            invariant
                k <= limit,
                limit <= sorted@.len(),
                ntags == self.tags@.len(),
                sorted@.len() == ntags,
                forall|p: int|
                    0 <= p < sorted@.len() ==> ((#[trigger] sorted@[p]).0 < ntags && sorted@[p].1
                        == spec_tag_use_count(*self, self.tags@[sorted@[p].0 as int].id)),
                r@.len() == k,
                forall|k2: int|
                    0 <= k2 < k ==> ((#[trigger] r@[k2]).id == self.tags@[sorted@[k2].0 as int].id
                        && r@[k2].name@ == self.tags@[sorted@[k2].0 as int].name@ && r@[k2].count
                        == sorted@[k2].1),
            decreases limit - k,
        {
            let pair = sorted[k];
            let rec = PopularTag {
                id: self.tags[pair.0].id,
                name: self.tags[pair.0].name.clone(),
                count: pair.1,
            };
            r.push(rec);
            k = k + 1;
        }
        proof {
            assert forall|t2: int|
                0 <= t2 < self.tags@.len() && r@.len() > 0 && spec_tag_use_count(
                    *self,
                    (#[trigger] self.tags@[t2]).id,
                ) > r@[r@.len() - 1].count implies exists|k2: int|
                0 <= k2 < r@.len() && (#[trigger] r@[k2]).id == self.tags@[t2].id by {
                lemma_permutation_index(pairs@, sorted@, t2);
                let j = choose|j: int| 0 <= j < sorted@.len() && sorted@[j] == pairs@[t2];
                assert(sorted@[j].1 == spec_tag_use_count(*self, self.tags@[t2].id));
                if j >= limit {
                    assert(sorted@[j].1 <= sorted@[limit - 1].1);
                    assert(r@[limit - 1].count == sorted@[limit - 1].1);
                    assert(false);
                } else {
                    assert(sorted@[j].0 == t2);
                    assert(r@[j].id == self.tags@[t2].id);
                }
            }
            assert forall|k2: int| 0 <= k2 < r@.len() implies exists|t2: int|
                0 <= t2 < self.tags@.len() && (#[trigger] r@[k2]).id == self.tags@[t2].id
                    && r@[k2].name@ == self.tags@[t2].name@ && r@[k2].count == spec_tag_use_count(
                *self,
                self.tags@[t2].id,
            ) by {
                assert(sorted@[k2].0 < ntags);
                let t2 = sorted@[k2].0 as int;
                assert(r@[k2].id == self.tags@[t2].id && r@[k2].name@ == self.tags@[t2].name@
                    && r@[k2].count == spec_tag_use_count(*self, self.tags@[t2].id));
            }
        }
        r
    }

    /// Accepts an upload by a channel: inserts the video row (pending until
    /// transcoding finishes) and one tag link per named tag. Refused whole
    /// when the uploader is not a channel or a tag id is unknown.
    pub fn upload_video(
        &mut self,
        user_id: i32,
        user_type: UserType,
        file_name: String,
        data: &UploadVideoData,
        now: u64,
    ) -> (r: Result<i32, VideoError>)
        requires
            old(self).wf(),
            old(self).next_id + 1 + data.video_tags@.len() <= i32::MAX,
        ensures
            final(self).wf(),
            match r {
                Ok(pk) => {
                    &&& user_type == UserType::Channel
                    &&& forall|k: int|
                        0 <= k < data.video_tags@.len() ==> first_match(
                            old(self).tags@,
                            tag_with_id(#[trigger] data.video_tags@[k]),
                        ) >= 0
                    &&& pk == old(self).next_id
                    &&& final(self).videos@.len() == old(self).videos@.len() + 1
                    &&& final(self).videos@.take(old(self).videos@.len() as int) == old(
                        self,
                    ).videos@
                    &&& ({
                        let v = final(self).videos@.last();
                        &&& v.id == pk
                        &&& v.file_name@ == file_name@
                        &&& v.user_id == user_id
                        &&& v.title@ == data.video_title@
                        &&& (v.description is Some <==> data.video_description is Some)
                        &&& (v.description is Some ==> v.description->0@
                            == data.video_description->0@)
                        &&& v.upload_date == now
                        &&& v.status == crate::models::VideoStatus::Processing
                    })
                    &&& final(self).videos_tags@ == old(self).videos_tags@ + Seq::new(
                        data.video_tags@.len(),
                        |k: int|
                            (VideoTag {
                                id: (old(self).next_id + 1 + k) as i32,
                                video_id: old(self).next_id,
                                tag_id: data.video_tags@[k],
                            }),
                    )
                    &&& final(self).next_id == old(self).next_id + 1 + data.video_tags@.len()
                    &&& final(self).users == old(self).users
                    &&& final(self).tokens == old(self).tokens
                    &&& final(self).channels_tokens == old(self).channels_tokens
                    &&& final(self).token_transactions == old(self).token_transactions
                    &&& final(self).tags == old(self).tags
                    &&& final(self).video_plays == old(self).video_plays
                    &&& final(self).comments == old(self).comments
                    &&& final(self).comment_upvotes == old(self).comment_upvotes
                    &&& final(self).video_upvotes == old(self).video_upvotes
                },
                Err(VideoError::NotChannel) => user_type != UserType::Channel && *final(self)
                    == *old(self),
                Err(VideoError::UnknownTag) => {
                    &&& user_type == UserType::Channel
                    &&& exists|k: int|
                        0 <= k < data.video_tags@.len() && first_match(
                            old(self).tags@,
                            tag_with_id(#[trigger] data.video_tags@[k]),
                        ) < 0
                    &&& *final(self) == *old(self)
                },
                Err(VideoError::VideoMissing) => false,
            },
    {
        if !matches!(user_type, UserType::Channel) {
            return Err(VideoError::NotChannel);
        }
        let tag_total: usize = data.video_tags.len();
        let mut t: usize = 0;
        while t < tag_total
            invariant
                t <= tag_total,
                tag_total == data.video_tags@.len(),
                *self == *old(self),
                old(self).wf(),
                user_type == UserType::Channel,
                forall|k: int|
                    0 <= k < t ==> first_match(
                        self.tags@,
                        tag_with_id(#[trigger] data.video_tags@[k]),
                    ) >= 0,
            decreases tag_total - t,
        {
            if self.tag_index(data.video_tags[t]).is_none() {
                return Err(VideoError::UnknownTag);
            }
            t = t + 1;
        }
        let pk = self.next_id;
        let video = Video {
            id: pk,
            file_name,
            user_id,
            title: data.video_title.clone(),
            description: crate::store::clone_opt_string(&data.video_description),
            upload_date: now,
            status: crate::models::VideoStatus::Processing,
        };
        self.videos.push(video);
        self.next_id = self.next_id + 1;
        let ghost mid = *self;
        let mut k: usize = 0;
        while k < tag_total
            invariant
                k <= tag_total,
                tag_total == data.video_tags@.len(),
                mid.wf(),
                mid.next_id == pk + 1,
                mid.next_id + data.video_tags@.len() <= i32::MAX,
                self.wf(),
                self.next_id == mid.next_id + k,
                self.videos_tags@ == mid.videos_tags@ + Seq::new(
                    k as nat,
                    |j: int|
                        (VideoTag {
                            id: (mid.next_id + j) as i32,
                            video_id: pk,
                            tag_id: data.video_tags@[j],
                        }),
                ),
                self.users == mid.users,
                self.tokens == mid.tokens,
                self.channels_tokens == mid.channels_tokens,
                self.token_transactions == mid.token_transactions,
                self.videos == mid.videos,
                self.tags == mid.tags,
                self.video_plays == mid.video_plays,
                self.comments == mid.comments,
                self.comment_upvotes == mid.comment_upvotes,
                self.video_upvotes == mid.video_upvotes,
            decreases tag_total - k,
        {
            let link = VideoTag { id: self.next_id, video_id: pk, tag_id: data.video_tags[k] };
            self.videos_tags.push(link);
            self.next_id = self.next_id + 1;
            k = k + 1;
            proof {
                assert(self.videos_tags@ =~= mid.videos_tags@ + Seq::new(
                    k as nat,
                    |j: int|
                        (VideoTag {
                            id: (mid.next_id + j) as i32,
                            video_id: pk,
                            tag_id: data.video_tags@[j],
                        }),
                ));
            }
        }
        proof {
            assert(self.videos@.take(old(self).videos@.len() as int) =~= old(self).videos@);
        }
        Ok(pk)
    }
}

} // verus!
