//! The page-facing pieces: sessions, route decisions, timestamp
//! formatting and template construction.
use credchain::crypto;
use credchain::database::account::{Account, AccountError};
use credchain::database::follow::{follow_action, user_redirect_target, FollowAction};
use credchain::database::post::{post_redirect_target, Post};
use credchain::database::types::{AccountId, OptPostId, PgU64, PostId};
use credchain::database::vote::{like_action, LikeAction};
use credchain::routes;
use credchain::session::{favicon, signout, SessionData, SessionUser};
use credchain::templates::{BaseTemplatePost, ReplyTemplatePost};
use credchain::timestamps::format_timestamp_at;

fn sample_post(id: u64, author_username: Option<&str>, parent: Option<u64>) -> Post {
    Post {
        id: PostId(id),
        author_id: AccountId(5),
        author_handle: String::from("ada"),
        author_username: author_username.map(String::from),
        body: String::from("hello"),
        create_time_micros: 0,
        parent_id: OptPostId(parent.map(PostId)),
        votes: PgU64(3),
        voted_by_user: true,
    }
}

#[test]
fn session_from_cookies() {
    let user = SessionUser::try_from_jar(Some("42"), Some("ada")).unwrap();
    assert_eq!(user.id, AccountId(42));
    assert_eq!(user.handle, "ada");
    assert!(SessionUser::try_from_jar(None, Some("ada")).is_none());
    assert!(SessionUser::try_from_jar(Some("42"), None).is_none());
    assert!(SessionUser::try_from_jar(Some("nan"), Some("ada")).is_none());
    assert!(SessionUser::try_from_jar(Some("4294967296"), Some("ada")).is_none());
}

#[test]
fn signout_clears_session() {
    let user = SessionUser { id: AccountId(1), handle: String::from("ada") };
    let mut session = SessionData { user: Some(user) };
    let target = signout(&mut session);
    assert!(session.user.is_none());
    assert_eq!(target, "/");
}

#[test]
fn favicon_redirect() {
    assert_eq!(favicon(), "/static/favicon.ico");
}

#[test]
fn login_decision() {
    let digest = crypto::encode_password("pw", 5);
    let account = Account {
        id: AccountId(1),
        handle: String::from("ada"),
        username: None,
        password_hash: digest.to_vec(),
        create_time_micros: 0,
        following: PgU64(0),
        followers: PgU64(0),
        followed_by_user: false,
    };
    match Account::login_outcome("ada", "pw", Some(account), 5) {
        Ok(acc) => assert_eq!(acc.id, AccountId(1)),
        Err(_) => panic!("valid password refused"),
    }
    let account = Account {
        id: AccountId(1),
        handle: String::from("ada"),
        username: None,
        password_hash: digest.to_vec(),
        create_time_micros: 0,
        following: PgU64(0),
        followers: PgU64(0),
        followed_by_user: false,
    };
    match Account::login_outcome("ada", "nope", Some(account), 5) {
        Err(AccountError::Password(p)) => assert_eq!(p, "nope"),
        _ => panic!("wrong password accepted"),
    }
    match Account::login_outcome("ada", "pw", None, 5) {
        Err(AccountError::Handle(h)) => assert_eq!(h, "ada"),
        _ => panic!("missing account accepted"),
    }
}

#[test]
fn display_name_falls_back_to_handle() {
    let mut account = Account {
        id: AccountId(1),
        handle: String::from("ada"),
        username: Some(String::from("Ada L.")),
        password_hash: vec![],
        create_time_micros: 0,
        following: PgU64(0),
        followers: PgU64(0),
        followed_by_user: false,
    };
    assert_eq!(account.display_name(), "Ada L.");
    account.username = None;
    assert_eq!(account.display_name(), "ada");
}

#[test]
fn like_decisions() {
    assert_eq!(like_action(AccountId(1), AccountId(1), false), None);
    assert_eq!(like_action(AccountId(1), AccountId(2), false), Some(LikeAction::AddVote));
    assert_eq!(like_action(AccountId(1), AccountId(2), true), Some(LikeAction::RemoveVote));
}

#[test]
fn follow_decisions() {
    assert_eq!(follow_action(AccountId(1), AccountId(1), true), None);
    assert_eq!(follow_action(AccountId(1), AccountId(2), true), Some(FollowAction::Follow));
    assert_eq!(follow_action(AccountId(1), AccountId(2), false), Some(FollowAction::Unfollow));
}

#[test]
fn redirect_targets() {
    assert_eq!(post_redirect_target(Some(PostId(42))), "/post/42");
    assert_eq!(post_redirect_target(None), "/");
    assert_eq!(user_redirect_target("ada"), "/user/ada");
}

#[test]
fn auth_error_banners() {
    assert_eq!(
        routes::login_error_message("err", "password").as_deref(),
        Some("Incorrect password!"),
    );
    assert_eq!(
        routes::login_error_message("err", "handle").as_deref(),
        Some("A user with this handle doesn't exist"),
    );
    assert_eq!(routes::login_error_message("err", "other"), None);
    assert_eq!(routes::login_error_message("page", "password"), None);
    assert_eq!(
        routes::register_error_message("err", "password").as_deref(),
        Some("Please enter a valid password"),
    );
    assert_eq!(
        routes::register_error_message("err", "handle").as_deref(),
        Some("A with this handle already exists"),
    );
    assert_eq!(routes::register_error_message("err", ""), None);
}

#[test]
fn timestamp_formatting() {
    // The Unix epoch, seen on its own day and seen a day later.
    assert_eq!(format_timestamp_at(0, 0), "00:00:00 today");
    assert_eq!(format_timestamp_at(0, 86_400_000_000), "00:00:00 01/01/70");
    // 2022-09-11 18:34:48 UTC.
    let micros: i64 = 1_662_921_288_000_000;
    assert_eq!(format_timestamp_at(micros, micros), "18:34:48 today");
    assert_eq!(format_timestamp_at(micros, micros + 86_400_000_000), "18:34:48 11/09/22");
    assert_eq!(format_timestamp_at(micros, 0), "18:34:48 11/09/22");
}

#[test]
fn template_post_fields() {
    let t = BaseTemplatePost::from(sample_post(9, Some("Ada L."), Some(4)));
    assert_eq!(t.id, 9);
    assert_eq!(t.author_id, 5);
    assert_eq!(t.author_name, "Ada L.");
    assert_eq!(t.author_handle, "ada");
    assert_eq!(t.body, "hello");
    assert_eq!(t.likes, 3);
    assert!(t.liked_by_user);
    assert_eq!(t.parent_id, Some(4));
    // The epoch is nobody's current date any more, so the formatted time
    // is the dated form.
    assert_eq!(t.create_time, "00:00:00 01/01/70");

    let t = BaseTemplatePost::from(sample_post(9, None, None));
    assert_eq!(t.author_name, "ada");
    assert_eq!(t.parent_id, None);
}

#[test]
fn feed_pairs_posts_with_top_replies() {
    let posts = vec![sample_post(1, None, None), sample_post(2, None, None)];
    let replies = vec![Some(sample_post(3, None, Some(1))), None];
    let feed = ReplyTemplatePost::from_posts(posts, replies);
    assert_eq!(feed.len(), 2);
    assert_eq!(feed[0].base.id, 1);
    assert_eq!(feed[0].reply.as_ref().unwrap().id, 3);
    assert_eq!(feed[1].base.id, 2);
    assert!(feed[1].reply.is_none());
}

#[test]
fn post_page_template_choice() {
    assert_eq!(credchain::routes::post_page_template(Some(4)), "post/reply.html");
    assert_eq!(credchain::routes::post_page_template(None), "post/index.html");
}
