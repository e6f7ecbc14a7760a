//! The signed-in session as the routes read it from the private cookies.
//!
//! The cookie jar itself belongs to the web layer; it hands over the two
//! cookie values as plain optional strings, and everything decided from
//! them is here.
use vstd::prelude::*;

verus! {

use vstd::string::*;
use crate::database::types::AccountId;
use crate::text::{digits_value, is_numeral_within, numeral_digits, parse_u32};

/// The signed-in user a session's cookies name.
pub struct SessionUser {
    pub id: AccountId,
    pub handle: String,
}

/// The session state a request carries: a signed-in user, or nobody.
pub struct SessionData {
    pub user: Option<SessionUser>,
}

impl SessionUser {
    /// Read the session from the private "id" and "handle" cookie values:
    /// there is a user exactly when both cookies are present and the id
    /// cookie spells an account id.
    pub fn try_from_jar(id_cookie: Option<&str>, handle_cookie: Option<&str>) -> (r: Option<
        SessionUser,
    >)
        ensures
            match r {
                Some(user) => {
                    &&& id_cookie matches Some(s) && is_numeral_within(
                        s.spec_bytes(),
                        u32::MAX as int,
                    ) && user.id.0 == digits_value(numeral_digits(s.spec_bytes()))
                    &&& handle_cookie matches Some(h) && user.handle@ == h@
                },
                None => {
                    ||| id_cookie is None
                    ||| !is_numeral_within(id_cookie->0.spec_bytes(), u32::MAX as int)
                    ||| handle_cookie is None
                },
            },
    {
        let id_value = match id_cookie {
            Some(s) => s,
            None => {
                return None;
            },
        };
        let id = match parse_u32(id_value) {
            Some(v) => AccountId(v),
            None => {
                return None;
            },
        };
        let handle = match handle_cookie {
            Some(h) => h,
            None => {
                return None;
            },
        };
        Some(SessionUser { id, handle: handle.to_owned() })
    }
}

/// The favicon route: the permanent redirect target for the icon.
pub fn favicon() -> (r: String)
    ensures
        r@ == "/static/favicon.ico"@,
{
    "/static/favicon.ico".to_owned()
}

/// Signing out: the session is cleared and the user is sent to the feed.
pub fn signout(session: &mut SessionData) -> (r: String)
    ensures
        final(session).user is None,
        r@ == "/"@,
{
    session.user = None;
    "/".to_owned()
}

} // verus!
