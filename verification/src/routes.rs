//! Decision kernels of the account pages: which error banner an "err"
//! query pair selects on the login and registration pages. Query-string
//! splitting and template rendering are the web layer's concern.
use vstd::prelude::*;

verus! {

use vstd::string::*;
use crate::text::str_eq;

/// The error banner the login page shows for one query pair: a failed
/// password or an unknown handle each select their message, anything else
/// selects none.
pub fn login_error_message(key: &str, value: &str) -> (r: Option<String>)
    ensures
        key@ == "err"@ && value@ == "password"@ ==> (r matches Some(m) && m@
            == "Incorrect password!"@),
        key@ == "err"@ && value@ == "handle"@ ==> (r matches Some(m) && m@
            == "A user with this handle doesn't exist"@),
        !(key@ == "err"@ && (value@ == "password"@ || value@ == "handle"@)) ==> r is None,
{
    proof {
        reveal_strlit("password");
        reveal_strlit("handle");
        assert("password"@.len() == 8);
        assert("handle"@.len() == 6);
        assert("password"@ != "handle"@);
    }
    if str_eq(key, "err") {
        if str_eq(value, "password") {
            return Some("Incorrect password!".to_owned());
        }
        if str_eq(value, "handle") {
            return Some("A user with this handle doesn't exist".to_owned());
        }
    }
    None
}

/// Which template the post page renders with: a reply is shown beside its
/// parent, a top-level post on its own page.
pub fn post_page_template(parent_id: Option<u64>) -> (r: String)
    ensures
        parent_id is Some ==> r@ == "post/reply.html"@,
        parent_id is None ==> r@ == "post/index.html"@,
{
    match parent_id {
        Some(_) => "post/reply.html".to_owned(),
        None => "post/index.html".to_owned(),
    }
}

/// The error banner the registration page shows for one query pair: a
/// rejected password or a taken handle each select their message,
/// anything else selects none.
pub fn register_error_message(key: &str, value: &str) -> (r: Option<String>)
    ensures
        key@ == "err"@ && value@ == "password"@ ==> (r matches Some(m) && m@
            == "Please enter a valid password"@),
        key@ == "err"@ && value@ == "handle"@ ==> (r matches Some(m) && m@
            == "A with this handle already exists"@),
        !(key@ == "err"@ && (value@ == "password"@ || value@ == "handle"@)) ==> r is None,
{
    proof {
        reveal_strlit("password");
        reveal_strlit("handle");
        assert("password"@.len() == 8);
        assert("handle"@.len() == 6);
        assert("password"@ != "handle"@);
    }
    if str_eq(key, "err") {
        if str_eq(value, "password") {
            return Some("Please enter a valid password".to_owned());
        }
        if str_eq(value, "handle") {
            return Some("A with this handle already exists".to_owned());
        }
    }
    None
}

} // verus!
