//! The account row and the decisions taken on one.
//!
//! A fetched row carries plain values: the creation time as Unix-epoch
//! microseconds, the stored credential as its digest bytes. Fetching,
//! inserting and deleting rows is the callers' concern; the login decision
//! on a fetched row is here, proved against the credential scheme.
use vstd::prelude::*;

verus! {

use vstd::string::*;
use vstd::std_specs::convert::FromSpecImpl;
use crate::crypto::{digest_matches, validate_password};
use crate::database::types::{AccountId, PgU64};

/// The process-wide chain-depth bound, shared by the encoding side at
/// registration and the validating side at login. The two sides must
/// agree on it: credentials encoded under a larger bound can fail to
/// validate under a smaller one.
pub const MAX_ITERATIONS: u8 = 100;

/// Why a login or registration attempt failed: the handle is unknown (or,
/// at registration, taken), or the password does not validate. Storage
/// faults are the callers' concern and are reported by them.
pub enum AccountError {
    Handle(String),
    Password(String),
}

/// An account row as the pages read it.
pub struct Account {
    pub id: AccountId,
    pub handle: String,
    pub username: Option<String>,
    pub password_hash: Vec<u8>,
    pub create_time_micros: i64,
    pub following: PgU64,
    pub followers: PgU64,
    pub followed_by_user: bool,
}

impl From<Account> for AccountId {
    fn from(value: Account) -> (r: AccountId) {
        value.id
    }
}

impl FromSpecImpl<Account> for AccountId {
    open spec fn obeys_from_spec() -> bool {
        true
    }

    open spec fn from_spec(value: Account) -> AccountId {
        value.id
    }
}

impl From<&Account> for AccountId {
    fn from(value: &Account) -> (r: AccountId) {
        value.id
    }
}

impl FromSpecImpl<&Account> for AccountId {
    open spec fn obeys_from_spec() -> bool {
        true
    }

    open spec fn from_spec(value: &Account) -> AccountId {
        value.id
    }
}

impl Account {
    /// The name the pages show for the account: the chosen username when
    /// one is set, the handle otherwise.
    pub fn display_name(&self) -> (r: &str)
        ensures
            match self.username {
                Some(ref u) => r@ == u@,
                None => r@ == self.handle@,
            },
    {
        match &self.username {
            Some(u) => u.as_str(),
            None => self.handle.as_str(),
        }
    }

    /// The decision at the heart of login, once the account row for the
    /// handle (if any) is fetched: an unknown handle is reported as such,
    /// and a known one is accepted exactly when the candidate password's
    /// hash chain reaches the stored digest within the bound.
    pub fn login_outcome(
        handle: &str,
        password: &str,
        found: Option<Account>,
        max_iterations: u8,
    ) -> (r: Result<Account, AccountError>)
        ensures
            match r {
                Ok(acc) => {
                    &&& found matches Some(a) && acc == a
                    &&& digest_matches(
                        password.spec_bytes(),
                        acc.password_hash@,
                        max_iterations,
                    )
                },
                Err(AccountError::Handle(h)) => found is None && h@ == handle@,
                Err(AccountError::Password(p)) => {
                    &&& found matches Some(a) && !digest_matches(
                        password.spec_bytes(),
                        a.password_hash@,
                        max_iterations,
                    )
                    &&& p@ == password@
                },
            },
    {
        match found {
            Some(acc) => {
                if validate_password(password, acc.password_hash.as_slice(), max_iterations) {
                    Ok(acc)
                } else {
                    Err(AccountError::Password(password.to_owned()))
                }
            },
            None => Err(AccountError::Handle(handle.to_owned())),
        }
    }
}

} // verus!
