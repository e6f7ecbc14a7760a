//! The plain structures the HTML templates are rendered from, and how a
//! fetched post row is turned into one. Rendering itself is the template
//! engine's concern; what each field holds is decided and proved here.
use vstd::prelude::*;

verus! {

use vstd::string::*;
use crate::database::post::Post;
use crate::timestamps::{format_timestamp, timestamp_spec, MAX_FORMAT_MICROS};

/// A post as a template shows it: identifiers flattened to plain numbers,
/// the author under their shown name, and the posting time already
/// formatted.
pub struct BaseTemplatePost {
    pub id: u64,
    pub author_id: u32,
    pub author_name: String,
    pub author_handle: String,
    pub body: String,
    pub create_time: String,
    pub likes: u64,
    pub liked_by_user: bool,
    pub parent_id: Option<u64>,
}

/// The name a template shows for a post's author: the chosen username
/// when one is set, the handle otherwise.
pub open spec fn shown_author_name(post: Post) -> Seq<char> {
    match post.author_username {
        Some(u) => u@,
        None => post.author_handle@,
    }
}

/// Whether a template post presents a post row as seen at a given moment:
/// every field carries the row's value, and the posting time is formatted
/// against that moment.
pub open spec fn renders_at(post: Post, t: BaseTemplatePost, at: i64) -> bool {
    &&& t.id == post.id.0
    &&& t.author_id == post.author_id.0
    &&& t.author_name@ == shown_author_name(post)
    &&& t.author_handle@ == post.author_handle@
    &&& t.body@ == post.body@
    &&& t.create_time@ == timestamp_spec(post.create_time_micros, at)
    &&& t.likes == post.votes.0
    &&& t.liked_by_user == post.voted_by_user
    &&& t.parent_id == (match post.parent_id.0 {
        Some(p) => Some(p.0),
        None => None::<u64>,
    })
}

/// Whether a template post presents a post row as seen at some moment
/// within the formatter's range.
pub open spec fn renders(post: Post, t: BaseTemplatePost) -> bool {
    exists|at: i64| 0 <= at <= MAX_FORMAT_MICROS && renders_at(post, t, at)
}

impl BaseTemplatePost {
    /// Turn a fetched post row into its template form, formatting the
    /// posting time against the clock.
    pub fn from(post: Post) -> (r: BaseTemplatePost)
        requires
            0 <= post.create_time_micros <= MAX_FORMAT_MICROS,
        ensures
            renders(post, r),
    {
        let create_time = format_timestamp(post.create_time_micros);
        let author_name = match post.author_username {
            Some(u) => u,
            None => post.author_handle.clone(),
        };
        let parent_id = match post.parent_id.0 {
            Some(p) => Some(p.0),
            None => None,
        };
        let r = BaseTemplatePost {
            id: post.id.0,
            author_id: post.author_id.0,
            author_name,
            author_handle: post.author_handle,
            body: post.body,
            create_time,
            likes: post.votes.0,
            liked_by_user: post.voted_by_user,
            parent_id,
        };
        proof {
            let at = choose|at: i64|
                0 <= at <= MAX_FORMAT_MICROS && r.create_time@ == timestamp_spec(
                    post.create_time_micros,
                    at,
                );
            assert(renders_at(post, r, at));
        }
        r
    }
}

/// A feed entry: a post together with its most-liked reply, when it has
/// one.
pub struct ReplyTemplatePost {
    pub base: BaseTemplatePost,
    pub reply: Option<BaseTemplatePost>,
}

impl ReplyTemplatePost {
    /// Pair each fetched post with its already-fetched top reply and put
    /// both in template form. The posts keep their order, and each entry
    /// carries a reply exactly where one was fetched.
    pub fn from_posts(posts: Vec<Post>, top_replies: Vec<Option<Post>>) -> (r: Vec<
        ReplyTemplatePost,
    >)
        requires
            posts@.len() == top_replies@.len(),
            forall|i: int|
                0 <= i < posts@.len() ==> 0 <= #[trigger] posts@[i].create_time_micros
                    <= MAX_FORMAT_MICROS,
            forall|i: int|
                0 <= i < top_replies@.len() ==> (#[trigger] top_replies@[i] matches Some(p) ==> 0
                    <= p.create_time_micros <= MAX_FORMAT_MICROS),
        ensures
            r@.len() == posts@.len(),
            forall|i: int| 0 <= i < r@.len() ==> renders(posts@[i], #[trigger] r@[i].base),
            forall|i: int|
                0 <= i < r@.len() ==> match top_replies@[i] {
                    Some(p) => #[trigger] r@[i].reply matches Some(t) && renders(p, t),
                    None => r@[i].reply is None,
                },
    {
        let ghost posts0 = posts@;
        let ghost replies0 = top_replies@;
        let mut posts = posts;
        let mut top_replies = top_replies;
        let mut out: Vec<ReplyTemplatePost> = Vec::new();
        while posts.len() > 0
            invariant
                posts@.len() == top_replies@.len(),
                out@.len() + posts@.len() == posts0.len(),
                posts0.len() == replies0.len(),
                posts@ == posts0.subrange(out@.len() as int, posts0.len() as int),
                top_replies@ == replies0.subrange(out@.len() as int, replies0.len() as int),
                forall|i: int|
                    0 <= i < posts0.len() ==> 0 <= #[trigger] posts0[i].create_time_micros
                        <= MAX_FORMAT_MICROS,
                forall|i: int|
                    0 <= i < replies0.len() ==> (#[trigger] replies0[i] matches Some(p) ==> 0
                        <= p.create_time_micros <= MAX_FORMAT_MICROS),
                forall|i: int| 0 <= i < out@.len() ==> renders(posts0[i], #[trigger] out@[i].base),
                forall|i: int|
                    0 <= i < out@.len() ==> match replies0[i] {
                        Some(p) => #[trigger] out@[i].reply matches Some(t) && renders(p, t),
                        None => out@[i].reply is None,
                    },
            decreases posts@.len(),
        {
            let ghost k = out@.len() as int;
            assert(posts@[0] == posts0[k]);
            assert(top_replies@[0] == replies0[k]);
            let post = posts.remove(0);
            let top_reply = top_replies.remove(0);
            let base = BaseTemplatePost::from(post);
            let reply = match top_reply {
                Some(p) => Some(BaseTemplatePost::from(p)),
                None => None,
            };
            out.push(ReplyTemplatePost { base, reply });
        }
        out
    }
}

} // verus!
