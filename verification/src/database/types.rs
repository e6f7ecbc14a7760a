//! The plain identifier and counter types the storage layer exchanges.
//!
//! Postgres has no unsigned columns, so unsigned counters and ids travel
//! through signed column types and back. The conversions here are the
//! two's-complement reinterpretations the original row mapping performs,
//! and the round-trip lemmas state that a stored value comes back intact.
use vstd::prelude::*;

verus! {

use vstd::std_specs::convert::{FromSpec, FromSpecImpl};
use crate::text::{digits_value, is_numeral_within, numeral_digits, parse_u32, parse_u64};
use vstd::string::*;

/// A non-negative 64-bit counter as it travels through a signed Postgres
/// bigint column.
#[derive(Debug, Clone, Copy, PartialEq, Eq, Structural, PartialOrd, Ord)]
pub struct PgU64(pub u64);

/// An account's numeric id, stored as a Postgres integer column.
#[derive(Debug, Clone, Copy, PartialEq, Eq, Structural, PartialOrd, Ord)]
pub struct AccountId(pub u32);

/// A post's numeric id, stored as a Postgres bigint column.
#[derive(Debug, Clone, Copy, PartialEq, Eq, Structural, PartialOrd, Ord)]
pub struct PostId(pub u64);

/// A post's optional parent id: present on replies, absent on top-level
/// posts.
#[derive(Debug, Clone, Copy, PartialEq, Eq, Structural, PartialOrd, Ord)]
pub struct OptPostId(pub Option<PostId>);

/// The error of parsing a malformed id route parameter.
#[derive(Debug, Clone, Copy, PartialEq, Eq, Structural)]
pub struct ParseIdError;

impl From<u64> for PgU64 {
    fn from(value: u64) -> (r: Self) {
        Self(value)
    }
}

impl FromSpecImpl<u64> for PgU64 {
    open spec fn obeys_from_spec() -> bool {
        true
    }

    open spec fn from_spec(value: u64) -> Self {
        PgU64(value)
    }
}

impl From<i64> for PgU64 {
    fn from(value: i64) -> (r: Self) {
        Self(#[verifier::truncate] (value as u64))
    }
}

impl FromSpecImpl<i64> for PgU64 {
    open spec fn obeys_from_spec() -> bool {
        true
    }

    open spec fn from_spec(value: i64) -> Self {
        PgU64(value as u64)
    }
}

impl From<i32> for PgU64 {
    fn from(value: i32) -> (r: Self) {
        Self(#[verifier::truncate] (value as u64))
    }
}

impl FromSpecImpl<i32> for PgU64 {
    open spec fn obeys_from_spec() -> bool {
        true
    }

    open spec fn from_spec(value: i32) -> Self {
        PgU64(value as u64)
    }
}

impl From<PgU64> for u64 {
    fn from(value: PgU64) -> (r: u64) {
        value.0
    }
}

impl FromSpecImpl<PgU64> for u64 {
    open spec fn obeys_from_spec() -> bool {
        true
    }

    open spec fn from_spec(value: PgU64) -> u64 {
        value.0
    }
}

impl From<PgU64> for i64 {
    fn from(value: PgU64) -> (r: i64) {
        #[verifier::truncate] (value.0 as i64)
    }
}

impl FromSpecImpl<PgU64> for i64 {
    open spec fn obeys_from_spec() -> bool {
        true
    }

    open spec fn from_spec(value: PgU64) -> i64 {
        value.0 as i64
    }
}

/// A counter sent to a bigint column and read back is unchanged: the
/// signed reinterpretation is inverted by the unsigned one.
pub proof fn lemma_pg_u64_round_trip(value: PgU64)
    ensures
        <PgU64 as FromSpec<i64>>::from_spec(<i64 as FromSpec<PgU64>>::from_spec(value)) == value,
{
    let x = value.0;
    assert(((x as i64) as u64) == x) by (bit_vector);
}

impl From<u32> for AccountId {
    fn from(value: u32) -> (r: Self) {
        Self(value)
    }
}

impl FromSpecImpl<u32> for AccountId {
    open spec fn obeys_from_spec() -> bool {
        true
    }

    open spec fn from_spec(value: u32) -> Self {
        AccountId(value)
    }
}

impl From<i32> for AccountId {
    fn from(value: i32) -> (r: Self) {
        Self(#[verifier::truncate] (value as u32))
    }
}

impl FromSpecImpl<i32> for AccountId {
    open spec fn obeys_from_spec() -> bool {
        true
    }

    open spec fn from_spec(value: i32) -> Self {
        AccountId(value as u32)
    }
}

impl From<AccountId> for i32 {
    fn from(value: AccountId) -> (r: i32) {
        #[verifier::truncate] (value.0 as i32)
    }
}

impl FromSpecImpl<AccountId> for i32 {
    open spec fn obeys_from_spec() -> bool {
        true
    }

    open spec fn from_spec(value: AccountId) -> i32 {
        value.0 as i32
    }
}

/// An account id sent to an integer column and read back is unchanged.
pub proof fn lemma_account_id_round_trip(value: AccountId)
    ensures
        <AccountId as FromSpec<i32>>::from_spec(<i32 as FromSpec<AccountId>>::from_spec(value))
            == value,
{
    let x = value.0;
    assert(((x as i32) as u32) == x) by (bit_vector);
}

impl AccountId {
    /// Parse an account id route parameter, accepting exactly what
    /// str::parse accepts for a u32: an optional plus sign and decimal
    /// digits spelling a value that fits.
    pub fn from_param(param: &str) -> (r: Result<AccountId, ParseIdError>)
        ensures
            match r {
                Ok(id) => is_numeral_within(param.spec_bytes(), u32::MAX as int) && id.0
                    == digits_value(numeral_digits(param.spec_bytes())),
                Err(_) => !is_numeral_within(param.spec_bytes(), u32::MAX as int),
            },
    {
        match parse_u32(param) {
            Some(v) => Ok(AccountId(v)),
            None => Err(ParseIdError),
        }
    }
}

impl From<u64> for PostId {
    fn from(value: u64) -> (r: Self) {
        Self(value)
    }
}

impl FromSpecImpl<u64> for PostId {
    open spec fn obeys_from_spec() -> bool {
        true
    }

    open spec fn from_spec(value: u64) -> Self {
        PostId(value)
    }
}

impl From<i64> for PostId {
    fn from(value: i64) -> (r: Self) {
        Self(#[verifier::truncate] (value as u64))
    }
}

impl FromSpecImpl<i64> for PostId {
    open spec fn obeys_from_spec() -> bool {
        true
    }

    open spec fn from_spec(value: i64) -> Self {
        PostId(value as u64)
    }
}

impl From<PostId> for u64 {
    fn from(value: PostId) -> (r: u64) {
        value.0
    }
}

impl FromSpecImpl<PostId> for u64 {
    open spec fn obeys_from_spec() -> bool {
        true
    }

    open spec fn from_spec(value: PostId) -> u64 {
        value.0
    }
}

impl From<PostId> for i64 {
    fn from(value: PostId) -> (r: i64) {
        #[verifier::truncate] (value.0 as i64)
    }
}

impl FromSpecImpl<PostId> for i64 {
    open spec fn obeys_from_spec() -> bool {
        true
    }

    open spec fn from_spec(value: PostId) -> i64 {
        value.0 as i64
    }
}

/// A post id sent to a bigint column and read back is unchanged.
pub proof fn lemma_post_id_round_trip(value: PostId)
    ensures
        <PostId as FromSpec<i64>>::from_spec(<i64 as FromSpec<PostId>>::from_spec(value)) == value,
{
    let x = value.0;
    assert(((x as i64) as u64) == x) by (bit_vector);
}

impl PostId {
    /// Parse a post id route parameter, accepting exactly what str::parse
    /// accepts for a u64.
    pub fn from_param(param: &str) -> (r: Result<PostId, ParseIdError>)
        ensures
            match r {
                Ok(id) => is_numeral_within(param.spec_bytes(), u64::MAX as int) && id.0
                    == digits_value(numeral_digits(param.spec_bytes())),
                Err(_) => !is_numeral_within(param.spec_bytes(), u64::MAX as int),
            },
    {
        match parse_u64(param) {
            Some(v) => Ok(PostId(v)),
            None => Err(ParseIdError),
        }
    }
}

impl From<Option<i64>> for OptPostId {
    fn from(value: Option<i64>) -> (r: Self) {
        match value {
            Some(v) => Self(Some(PostId::from(v))),
            None => Self(None),
        }
    }
}

impl FromSpecImpl<Option<i64>> for OptPostId {
    open spec fn obeys_from_spec() -> bool {
        true
    }

    open spec fn from_spec(value: Option<i64>) -> Self {
        match value {
            Some(v) => OptPostId(Some(PostId(v as u64))),
            None => OptPostId(None),
        }
    }
}

} // verus!
