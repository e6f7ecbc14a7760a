//! The follow relation and the decision behind the follow routes.
use vstd::prelude::*;

verus! {

use vstd::string::*;
use crate::database::types::AccountId;

/// A row of the follow relation: one account following another.
pub struct Follow {
    pub user_id: AccountId,
    pub followed_id: AccountId,
}

/// What the follow routes do: start or stop following.
#[derive(Debug, Clone, Copy, PartialEq, Eq, Structural)]
pub enum FollowAction {
    Follow,
    Unfollow,
}

/// The decision at the heart of the follow and unfollow routes once both
/// accounts are fetched: an account may not follow itself; otherwise the
/// requested action stands.
pub fn follow_action(viewer: AccountId, target: AccountId, follow: bool) -> (r: Option<
    FollowAction,
>)
    ensures
        viewer == target ==> r is None,
        viewer != target && follow ==> r == Some(FollowAction::Follow),
        viewer != target && !follow ==> r == Some(FollowAction::Unfollow),
{
    if viewer.0 == target.0 {
        None
    } else if follow {
        Some(FollowAction::Follow)
    } else {
        Some(FollowAction::Unfollow)
    }
}

/// Where the follow routes send the user afterwards: back to the followed
/// account's page.
pub fn user_redirect_target(handle: &str) -> (r: String)
    ensures
        r@ == "/user/"@ + handle@,
{
    let mut s = "/user/".to_owned();
    s.append(handle);
    s
}

} // verus!
