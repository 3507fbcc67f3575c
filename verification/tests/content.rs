use cinema::models::{Tag, UpvoteType, User, UserType, Video, VideoPlay, VideoStatus, VideoTag};
use cinema::store::Store;
use cinema::videos::{extension_for_mime, GetVideosBody, UploadVideoData, VideoError};
use cinema::text::str_contains;
use cinema::comments::CommentError;

fn plain_user(id: i32, name: &str, user_type: UserType) -> User {
    User {
        id,
        username: name.to_string(),
        password: String::new(),
        email: format!("{}@example.com", name),
        password_reset_token: None,
        user_type,
        stripe_customer: None,
        subscribed: false,
        stripe_account: None,
        channel_onboarded: false,
        avatar_filename: None,
        cover_filename: None,
        subscriptions_enabled: false,
        display_name: None,
        bio: None,
    }
}

fn ready_video(id: i32, owner: i32, title: &str) -> Video {
    Video {
        id,
        file_name: format!("file{}", id),
        user_id: owner,
        title: title.to_string(),
        description: None,
        upload_date: 100,
        status: VideoStatus::Ready,
    }
}

/// A store with one viewer (1), one channel (2), tags comedy (10) and
/// drama (11), and three ready videos: 3 and 4 tagged comedy, 5 tagged drama.
fn catalog() -> Store {
    let mut s = Store::new();
    s.users.push(plain_user(1, "viewer", UserType::Subscriber));
    s.users.push(plain_user(2, "channel", UserType::Channel));
    s.tags.push(Tag { id: 10, name: "comedy".to_string() });
    s.tags.push(Tag { id: 11, name: "drama".to_string() });
    s.videos.push(ready_video(3, 2, "laughs"));
    s.videos.push(ready_video(4, 2, "more laughs"));
    s.videos.push(ready_video(5, 2, "tears"));
    s.videos_tags.push(VideoTag { id: 20, video_id: 3, tag_id: 10 });
    s.videos_tags.push(VideoTag { id: 21, video_id: 4, tag_id: 10 });
    s.videos_tags.push(VideoTag { id: 22, video_id: 5, tag_id: 11 });
    s.next_id = 30;
    s
}

#[test]
fn no_play_history_means_no_recommendations() {
    let s = catalog();
    assert!(s.get_recommended_videos(1).is_empty());
}

#[test]
fn recommendations_follow_watched_tags_and_skip_watched_videos() {
    let mut s = catalog();
    assert!(s.record_play(1, 3, 200).is_ok());
    let recs = s.get_recommended_videos(1);
    // video 4 shares the comedy tag and is unplayed; 3 is played, 5 is drama
    assert_eq!(recs.len(), 1);
    assert_eq!(recs[0].id, 4);
    assert_eq!(recs[0].user.id, 2);
    assert_eq!(recs[0].plays, 0);
    assert_eq!(recs[0].tags.len(), 1);
    assert_eq!(recs[0].tags[0].name, "comedy");
}

#[test]
fn recommendations_require_ready_status() {
    let mut s = catalog();
    assert!(s.record_play(1, 3, 200).is_ok());
    s.videos[1].status = VideoStatus::Processing;
    assert!(s.get_recommended_videos(1).is_empty());
}

#[test]
fn recording_a_play_requires_the_video() {
    let mut s = catalog();
    assert_eq!(s.record_play(1, 99, 200), Err(VideoError::VideoMissing));
    assert!(s.record_play(1, 3, 200).is_ok());
    assert_eq!(s.video_plays.len(), 1);
    assert_eq!(s.video_plays[0].video_id, 3);
}

#[test]
fn single_video_view_carries_counts_and_viewer_flags() {
    let mut s = catalog();
    assert!(s.record_play(2, 3, 150).is_ok());
    assert!(s.toggle_video_upvote(1, 3, UpvoteType::Up, 200).is_ok());
    let v = s.get_video(3, 1).expect("video is served");
    assert_eq!(v.id, 3);
    assert_eq!(v.title, "laughs");
    assert!(v.upvoted);
    assert!(!v.downvoted);
    assert_eq!(v.upvotes, 1);
    assert_eq!(v.downvotes, 0);
    assert_eq!(v.plays, 1);
    assert_eq!(v.user.username, "channel");
    assert!(s.get_video(99, 1).is_none());
}

#[test]
fn untagged_videos_are_not_served() {
    let mut s = catalog();
    s.videos.push(ready_video(6, 2, "untagged"));
    assert!(s.get_video(6, 1).is_none());
}

#[test]
fn search_filters_compose_conjunctively() {
    let mut s = catalog();
    let all = GetVideosBody {
        title: None,
        tag: None,
        user: None,
        recommended: None,
        subscriptions: None,
        upvoted: None,
        recently_watched: None,
    };
    assert_eq!(s.get_videos(1, &all, 1000).len(), 3);

    let by_title = GetVideosBody { title: Some("laughs".to_string()), ..all_body() };
    let hits = s.get_videos(1, &by_title, 1000);
    assert_eq!(hits.len(), 2);

    let by_tag = GetVideosBody { tag: Some(11), ..all_body() };
    let hits = s.get_videos(1, &by_tag, 1000);
    assert_eq!(hits.len(), 1);
    assert_eq!(hits[0].id, 5);

    let by_both = GetVideosBody { title: Some("tears".to_string()), tag: Some(10), ..all_body() };
    assert!(s.get_videos(1, &by_both, 1000).is_empty());

    assert!(s.toggle_video_upvote(1, 4, UpvoteType::Up, 900).is_ok());
    let upvoted = GetVideosBody { upvoted: Some(true), ..all_body() };
    let hits = s.get_videos(1, &upvoted, 1000);
    assert_eq!(hits.len(), 1);
    assert_eq!(hits[0].id, 4);
}

fn all_body() -> GetVideosBody {
    GetVideosBody {
        title: None,
        tag: None,
        user: None,
        recommended: None,
        subscriptions: None,
        upvoted: None,
        recently_watched: None,
    }
}

#[test]
fn search_with_recommended_flag_delegates_to_the_engine() {
    let mut s = catalog();
    assert!(s.record_play(1, 3, 200).is_ok());
    let body = GetVideosBody { recommended: Some(true), ..all_body() };
    let hits = s.get_videos(1, &body, 1000);
    assert_eq!(hits.len(), 1);
    assert_eq!(hits[0].id, 4);
}

#[test]
fn recently_watched_filter_honours_the_window() {
    let mut s = catalog();
    assert!(s.record_play(1, 3, 1000).is_ok());
    let body = GetVideosBody { recently_watched: Some(true), ..all_body() };
    let hits = s.get_videos(1, &body, 2000);
    assert_eq!(hits.len(), 1);
    assert_eq!(hits[0].id, 3);
    let later = 1000 + cinema::RECENTLY_WATCHED_SECS + 1;
    assert!(s.get_videos(1, &body, later).is_empty());
}

#[test]
fn upload_is_for_channels_with_known_tags_only() {
    let mut s = catalog();
    let data = UploadVideoData {
        video_title: "fresh".to_string(),
        video_description: Some("new clip".to_string()),
        video_tags: vec![10, 11],
    };
    assert_eq!(
        s.upload_video(1, UserType::Subscriber, "f1".to_string(), &data, 500),
        Err(VideoError::NotChannel)
    );
    let bad = UploadVideoData { video_tags: vec![10, 99], ..upload_data() };
    assert_eq!(
        s.upload_video(2, UserType::Channel, "f1".to_string(), &bad, 500),
        Err(VideoError::UnknownTag)
    );
    let before = s.videos.len();
    let pk = s
        .upload_video(2, UserType::Channel, "f1".to_string(), &data, 500)
        .expect("upload accepted");
    assert_eq!(s.videos.len(), before + 1);
    let v = s.videos.last().unwrap();
    assert_eq!(v.id, pk);
    assert_eq!(v.status, VideoStatus::Processing);
    assert_eq!(s.videos_tags.iter().filter(|vt| vt.video_id == pk).count(), 2);
}

fn upload_data() -> UploadVideoData {
    UploadVideoData {
        video_title: "fresh".to_string(),
        video_description: None,
        video_tags: vec![],
    }
}

#[test]
fn owner_may_retitle_a_video_and_strangers_may_not() {
    let mut s = catalog();
    let body = cinema::videos::UpdateVideoBody {
        video: 3,
        title: Some("renamed".to_string()),
        description: Some("described".to_string()),
    };
    s.update_video(1, &body);
    assert_eq!(s.videos[0].title, "laughs");
    s.update_video(2, &body);
    assert_eq!(s.videos[0].title, "renamed");
    assert_eq!(s.videos[0].description.as_deref(), Some("described"));
}

#[test]
fn comments_are_listed_with_authors_and_soft_deleted() {
    let mut s = catalog();
    assert_eq!(
        s.create_comment(1, "ghost".to_string(), 99, 300),
        Err(CommentError::VideoMissing)
    );
    assert!(s.create_comment(1, "first".to_string(), 3, 300).is_ok());
    assert!(s.create_comment(2, "second".to_string(), 3, 301).is_ok());
    let listed = s.get_comments(3, 1);
    assert_eq!(listed.len(), 2);
    assert_eq!(listed[0].text, "first");
    assert_eq!(listed[0].user.username, "viewer");

    let first_id = s.comments[0].id;
    s.edit_comment(2, first_id, "hijacked".to_string());
    assert_eq!(s.comments[0].text, "first");
    s.edit_comment(1, first_id, "edited".to_string());
    assert_eq!(s.comments[0].text, "edited");

    s.delete_comment(1, first_id);
    let listed = s.get_comments(3, 1);
    assert_eq!(listed.len(), 1);
    assert_eq!(listed[0].text, "second");
    assert_eq!(s.comments.len(), 2);
}

#[test]
fn available_and_popular_tags() {
    let mut s = catalog();
    let tags = s.get_available_tags();
    assert_eq!(tags.len(), 2);
    assert_eq!(tags[0].name, "comedy");
    let popular = s.get_popular_tags();
    assert_eq!(popular.len(), 2);
    assert_eq!(popular[0].name, "comedy");
    assert_eq!(popular[0].count, 2);
    assert_eq!(popular[1].name, "drama");
    assert_eq!(popular[1].count, 1);
    // a third unused tag ranks last
    s.tags.push(Tag { id: 12, name: "news".to_string() });
    let popular = s.get_popular_tags();
    assert_eq!(popular.len(), 3);
    assert_eq!(popular[2].count, 0);
}

#[test]
fn top_channels_rank_by_total_plays() {
    let mut s = catalog();
    s.users.push(plain_user(6, "second_channel", UserType::Channel));
    s.videos.push(ready_video(7, 6, "quiet"));
    s.videos_tags.push(VideoTag { id: 23, video_id: 7, tag_id: 11 });
    s.next_id = 40;
    assert!(s.record_play(1, 3, 200).is_ok());
    assert!(s.record_play(1, 4, 201).is_ok());
    assert!(s.record_play(1, 7, 202).is_ok());
    let top = s.get_top_channels();
    assert_eq!(top.len(), 2);
    assert_eq!(top[0].username, "channel");
    assert_eq!(top[0].plays, 2);
    assert_eq!(top[1].username, "second_channel");
    assert_eq!(top[1].plays, 1);
}

#[test]
fn profile_view_counts_subscribers() {
    let mut s = catalog();
    s.add_tokens(1, 1, 100);
    assert!(s.transfer_token(1, 2, 200).is_ok());
    let profile = s.get_user(2).expect("channel exists");
    assert_eq!(profile.subscribers, 1);
    assert!(s.get_user(99).is_none());
}

#[test]
fn channel_directory_matches_username_or_display_name() {
    let mut s = catalog();
    s.users[1].display_name = Some("The Laughing Stock".to_string());
    let all = s.get_users(&cinema::users::GetUsersBody { name: None });
    assert_eq!(all.len(), 1);
    let by_username = s.get_users(&cinema::users::GetUsersBody { name: Some("chan".to_string()) });
    assert_eq!(by_username.len(), 1);
    let by_display = s.get_users(&cinema::users::GetUsersBody { name: Some("Laughing".to_string()) });
    assert_eq!(by_display.len(), 1);
    let none = s.get_users(&cinema::users::GetUsersBody { name: Some("zzz".to_string()) });
    assert!(none.is_empty());
}

#[test]
fn substring_search_behaves_like_like_patterns() {
    assert!(str_contains("more laughs", "laugh"));
    assert!(str_contains("laughs", ""));
    assert!(!str_contains("", "laughs"));
    assert!(!str_contains("tears", "laugh"));
    assert!(str_contains("abc", "abc"));
}

#[test]
fn mime_types_map_to_their_extensions() {
    assert_eq!(extension_for_mime("video/mpeg"), Some("mpeg"));
    assert_eq!(extension_for_mime("video/mp4"), Some("mp4"));
    assert_eq!(extension_for_mime("image/png"), Some("png"));
    assert_eq!(extension_for_mime("image/jpeg"), Some("jpeg"));
    assert_eq!(extension_for_mime("video/mkv"), Some("mkv"));
    assert_eq!(extension_for_mime("text/plain"), None);
}

#[test]
fn play_counts_accumulate_per_video() {
    let mut s = catalog();
    assert!(s.record_play(1, 3, 200).is_ok());
    assert!(s.record_play(2, 3, 201).is_ok());
    assert!(s.record_play(1, 4, 202).is_ok());
    assert_eq!(s.count_video_plays(3), 2);
    assert_eq!(s.count_video_plays(4), 1);
    assert_eq!(s.count_video_plays(5), 0);
    let _ = VideoPlay { id: 0, user_id: 1, video_id: 3, date: 0 };
}
