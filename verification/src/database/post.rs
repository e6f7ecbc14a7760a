//! The post row and the redirect decision after creating or deleting one.
use vstd::prelude::*;

verus! {

use vstd::string::*;
use vstd::std_specs::convert::FromSpecImpl;
use crate::database::types::{AccountId, OptPostId, PgU64, PostId};
use crate::text::{dec_str_of, u64_to_dec};

/// A post row as the pages read it, joined with its author and vote count.
pub struct Post {
    pub id: PostId,
    pub author_id: AccountId,
    pub author_handle: String,
    pub author_username: Option<String>,
    pub body: String,
    pub create_time_micros: i64,
    pub parent_id: OptPostId,
    pub votes: PgU64,
    pub voted_by_user: bool,
}

impl From<Post> for PostId {
    fn from(value: Post) -> (r: PostId) {
        value.id
    }
}

impl FromSpecImpl<Post> for PostId {
    open spec fn obeys_from_spec() -> bool {
        true
    }

    open spec fn from_spec(value: Post) -> PostId {
        value.id
    }
}

impl From<&Post> for PostId {
    fn from(value: &Post) -> (r: PostId) {
        value.id
    }
}

impl FromSpecImpl<&Post> for PostId {
    open spec fn obeys_from_spec() -> bool {
        true
    }

    open spec fn from_spec(value: &Post) -> PostId {
        value.id
    }
}

/// Where to send the user after a post is created under, or removed from,
/// a possible parent: to the parent post's page when there is one, to the
/// feed otherwise.
pub fn post_redirect_target(parent_id: Option<PostId>) -> (r: String)
    ensures
        match parent_id {
            Some(id) => r@ == "/post/"@ + dec_str_of(id.0 as int),
            None => r@ == "/"@,
        },
{
    match parent_id {
        Some(id) => {
            let mut s = "/post/".to_owned();
            let num = u64_to_dec(id.0);
            s.append(num.as_str());
            s
        },
        None => "/".to_owned(),
    }
}

} // verus!
