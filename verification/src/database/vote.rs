//! The vote relation and the decision behind the like route.
use vstd::prelude::*;

verus! {

use crate::database::types::{AccountId, PostId};

/// A row of the vote relation: one account liking one post.
pub struct Vote {
    pub voter_id: AccountId,
    pub post_id: PostId,
}

/// What the like route does to the vote row: add one or remove one.
#[derive(Debug, Clone, Copy, PartialEq, Eq, Structural)]
pub enum LikeAction {
    AddVote,
    RemoveVote,
}

/// The decision at the heart of the like route once the post and the
/// viewer's existing vote are fetched: an author may not like their own
/// post; otherwise the vote toggles — added when absent, removed when
/// present.
pub fn like_action(viewer: AccountId, author: AccountId, liked_by_user: bool) -> (r: Option<
    LikeAction,
>)
    ensures
        viewer == author ==> r is None,
        viewer != author && liked_by_user ==> r == Some(LikeAction::RemoveVote),
        viewer != author && !liked_by_user ==> r == Some(LikeAction::AddVote),
{
    if viewer.0 == author.0 {
        None
    } else if liked_by_user {
        Some(LikeAction::RemoveVote)
    } else {
        Some(LikeAction::AddVote)
    }
}

} // verus!
