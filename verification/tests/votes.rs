use cinema::models::{UpvoteType, User, UserType, Video, VideoStatus};
use cinema::store::Store;
use cinema::upvotes::UpvoteError;

fn plain_user(id: i32, name: &str, user_type: UserType) -> User {
    User {
        id,
        username: name.to_string(),
        password: String::new(),
        email: format!("{}@example.com", name),
        password_reset_token: None,
        user_type,
        stripe_customer: None,
        subscribed: false,
        stripe_account: None,
        channel_onboarded: false,
        avatar_filename: None,
        cover_filename: None,
        subscriptions_enabled: false,
        display_name: None,
        bio: None,
    }
}

fn store_with_comment() -> (Store, i32) {
    let mut s = Store::new();
    s.users.push(plain_user(1, "viewer", UserType::Subscriber));
    s.users.push(plain_user(2, "channel", UserType::Channel));
    s.videos.push(Video {
        id: 3,
        file_name: "clip".to_string(),
        user_id: 2,
        title: "a clip".to_string(),
        description: None,
        upload_date: 100,
        status: VideoStatus::Ready,
    });
    s.next_id = 4;
    let r = s.create_comment(1, "nice".to_string(), 3, 200);
    assert!(r.is_ok());
    let comment_id = s.comments[0].id;
    (s, comment_id)
}

#[test]
fn double_toggle_deactivates_and_third_restores() {
    let (mut s, c) = store_with_comment();
    assert!(s.toggle_comment_upvote(1, c, UpvoteType::Up, 300).is_ok());
    assert!(!s.comment_upvotes[0].inactive);
    assert_eq!(s.count_comment_votes(c, UpvoteType::Up), 1);

    assert!(s.toggle_comment_upvote(1, c, UpvoteType::Up, 301).is_ok());
    assert!(s.comment_upvotes[0].inactive);
    assert_eq!(s.count_comment_votes(c, UpvoteType::Up), 0);

    assert!(s.toggle_comment_upvote(1, c, UpvoteType::Up, 302).is_ok());
    assert!(!s.comment_upvotes[0].inactive);
    assert_eq!(s.count_comment_votes(c, UpvoteType::Up), 1);
    assert_eq!(s.comment_upvotes.len(), 1);
}

#[test]
fn switching_direction_reactivates_the_vote() {
    let (mut s, c) = store_with_comment();
    assert!(s.toggle_comment_upvote(1, c, UpvoteType::Up, 300).is_ok());
    assert!(s.toggle_comment_upvote(1, c, UpvoteType::Up, 301).is_ok());
    assert!(s.comment_upvotes[0].inactive);
    assert!(s.toggle_comment_upvote(1, c, UpvoteType::Down, 302).is_ok());
    assert!(!s.comment_upvotes[0].inactive);
    assert_eq!(s.comment_upvotes[0].upvote_type, UpvoteType::Down);
    assert_eq!(s.count_comment_votes(c, UpvoteType::Up), 0);
    assert_eq!(s.count_comment_votes(c, UpvoteType::Down), 1);
}

#[test]
fn first_vote_on_missing_comment_is_refused() {
    let (mut s, _) = store_with_comment();
    assert_eq!(
        s.toggle_comment_upvote(1, 99, UpvoteType::Up, 300),
        Err(UpvoteError::TargetMissing)
    );
    assert!(s.comment_upvotes.is_empty());
}

#[test]
fn video_votes_follow_the_same_machine() {
    let (mut s, _) = store_with_comment();
    assert_eq!(
        s.toggle_video_upvote(1, 99, UpvoteType::Up, 300),
        Err(UpvoteError::TargetMissing)
    );
    assert!(s.toggle_video_upvote(1, 3, UpvoteType::Up, 300).is_ok());
    assert!(s.toggle_video_upvote(2, 3, UpvoteType::Down, 301).is_ok());
    let counts = s.get_video_upvote_count(3);
    assert_eq!(counts.upvotes, 1);
    assert_eq!(counts.downvotes, 1);
    assert!(s.toggle_video_upvote(1, 3, UpvoteType::Up, 302).is_ok());
    let counts = s.get_video_upvote_count(3);
    assert_eq!(counts.upvotes, 0);
    assert_eq!(counts.downvotes, 1);
}

#[test]
fn comment_listing_carries_vote_counts_and_viewer_flags() {
    let (mut s, c) = store_with_comment();
    assert!(s.toggle_comment_upvote(1, c, UpvoteType::Up, 300).is_ok());
    assert!(s.toggle_comment_upvote(2, c, UpvoteType::Down, 301).is_ok());
    let listed = s.get_comments(3, 1);
    assert_eq!(listed.len(), 1);
    assert!(listed[0].upvoted);
    assert!(!listed[0].downvoted);
    assert_eq!(listed[0].upvotes, 1);
    assert_eq!(listed[0].downvotes, 1);
    let listed_for_other = s.get_comments(3, 2);
    assert!(!listed_for_other[0].upvoted);
    assert!(listed_for_other[0].downvoted);
}

#[test]
fn vote_counts_ignore_other_targets() {
    let (mut s, c) = store_with_comment();
    let r = s.create_comment(2, "second".to_string(), 3, 400);
    assert!(r.is_ok());
    let c2 = s.comments[1].id;
    assert!(s.toggle_comment_upvote(1, c, UpvoteType::Up, 300).is_ok());
    assert_eq!(s.count_comment_votes(c2, UpvoteType::Up), 0);
}
