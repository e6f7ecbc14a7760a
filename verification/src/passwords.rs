//! The credential scheme over hex-encoded digests.
//!
//! Same chain construction as the raw-digest form, but the stored credential
//! is the lowercase hexadecimal string of the chosen chain value, which is
//! what a textual password_hash column holds. The two forms are equivalent:
//! the hex encoding is invertible, so a stored string matches exactly when
//! the digest it spells does.
use vstd::prelude::*;

verus! {

use vstd::string::*;
use vstd::utf8::encode_utf8;
use crate::crypto::{digest_matches, draw_depth, hash_chain, sha512};

/// The lowercase hexadecimal digit for a value below sixteen.
pub open spec fn hex_digit(v: u8) -> char
    recommends
        v < 16,
{
    if v < 10 {
        (((v + 48) as u8) as char)
    } else {
        (((v + 87) as u8) as char)
    }
}

/// The lowercase hexadecimal encoding of a byte sequence: two digits for
/// each byte, high nibble first.
pub open spec fn hex_of(bytes: Seq<u8>) -> Seq<char> {
    Seq::new(
        bytes.len() * 2,
        |i: int|
            if i % 2 == 0 {
                hex_digit(bytes[i / 2] / 16)
            } else {
                hex_digit(bytes[i / 2] % 16)
            },
    )
}

/// A stored hex string is valid for a password under a bound iff it spells
/// a digest on the password's hash chain at some depth below the bound.
pub open spec fn hex_digest_matches(
    password: Seq<u8>,
    stored: Seq<char>,
    max_iterations: u8,
) -> bool {
    exists|depth: nat|
        depth < max_iterations && hex_of(hash_chain(password, depth)) == stored
}

/// Relies on hex::encode: the lowercase hexadecimal encoding of the bytes,
/// two digits for each byte, high nibble first.
#[verifier::external_body]
fn hex_encode(bytes: &[u8]) -> (r: String)
    ensures
        r@ == hex_of(bytes@),
{
    hex::encode(bytes)
}

/// Encode a password for storage as text: hash it, walk its chain to a
/// depth drawn at random below the bound, and spell the reached digest in
/// lowercase hex. The result always validates for this password and bound.
pub fn encode_password(password: &String, max_iterations: u8) -> (stored: String)
    requires
        max_iterations >= 1,
    ensures
        hex_digest_matches(encode_utf8(password@), stored@, max_iterations),
        stored@.len() == 128,
{
    let mut content = sha512(password.as_str().as_bytes());
    let depth = draw_depth(max_iterations);
    for i in 0..depth
        invariant
            depth < max_iterations,
            content@ == hash_chain(encode_utf8(password@), i as nat),
    {
        content = sha512(content.as_slice());
    }
    assert(hash_chain(encode_utf8(password@), depth as nat) == content@);
    hex_encode(content.as_slice())
}

/// Check a candidate password against a stored hex string: recompute the
/// candidate's chain, spelling each value below the bound in hex and
/// comparing it to the stored text. Returns true exactly when the stored
/// string spells a digest on the candidate's chain there.
pub fn validate_password(password: &String, hash: &String, max_iterations: u8) -> (valid: bool)
    ensures
        valid == hex_digest_matches(encode_utf8(password@), hash@, max_iterations),
{
    let mut content = sha512(password.as_str().as_bytes());
    for i in 0..max_iterations
        invariant
            content@ == hash_chain(encode_utf8(password@), i as nat),
            forall|d: nat|
                d < i ==> hex_of(hash_chain(encode_utf8(password@), d)) != hash@,
    {
        let encoded = hex_encode(content.as_slice());
        if encoded == *hash {
            assert(hex_of(hash_chain(encode_utf8(password@), i as nat)) == hash@);
            return true;
        }
        content = sha512(content.as_slice());
    }
    false
}

/// The hex encoding is invertible: distinct byte sequences spell distinct
/// strings. Hence storing credentials as text loses nothing against the
/// raw-digest form.
pub proof fn lemma_hex_of_injective(a: Seq<u8>, b: Seq<u8>)
    requires
        hex_of(a) == hex_of(b),
    ensures
        a == b,
{
    assert(hex_of(a).len() == a.len() * 2);
    assert(hex_of(b).len() == b.len() * 2);
    assert(a.len() == b.len());
    assert forall|j: int| 0 <= j < a.len() implies a[j] == b[j] by {
        assert((2 * j) % 2 == 0 && (2 * j) / 2 == j) by (nonlinear_arith);
        assert((2 * j + 1) % 2 == 1 && (2 * j + 1) / 2 == j) by (nonlinear_arith);
        assert(hex_of(a)[2 * j] == hex_digit(a[j] / 16));
        assert(hex_of(b)[2 * j] == hex_digit(b[j] / 16));
        assert(hex_of(a)[2 * j + 1] == hex_digit(a[j] % 16));
        assert(hex_of(b)[2 * j + 1] == hex_digit(b[j] % 16));
        lemma_hex_digit_injective(a[j] / 16, b[j] / 16);
        lemma_hex_digit_injective(a[j] % 16, b[j] % 16);
        assert(a[j] == (a[j] / 16) * 16 + a[j] % 16) by (nonlinear_arith);
        assert(b[j] == (b[j] / 16) * 16 + b[j] % 16) by (nonlinear_arith);
    }
    assert(a =~= b);
}

/// Distinct values below sixteen have distinct hex digits.
proof fn lemma_hex_digit_injective(x: u8, y: u8)
    requires
        x < 16,
        y < 16,
        hex_digit(x) == hex_digit(y),
    ensures
        x == y,
{
    assert(hex_digit(x) as u32 == hex_digit(y) as u32);
}

/// A stored hex string validates for a password iff the digest it spells
/// does in the raw-digest scheme: the two storage forms are interchangeable.
pub proof fn lemma_hex_matches_iff_digest_matches(
    password: Seq<u8>,
    digest: Seq<u8>,
    max_iterations: u8,
)
    ensures
        hex_digest_matches(password, hex_of(digest), max_iterations) == digest_matches(
            password,
            digest,
            max_iterations,
        ),
{
    if hex_digest_matches(password, hex_of(digest), max_iterations) {
        let depth = choose|depth: nat|
            depth < max_iterations && hex_of(hash_chain(password, depth)) == hex_of(digest);
        lemma_hex_of_injective(hash_chain(password, depth), digest);
        assert(hash_chain(password, depth) == digest);
    }
    if digest_matches(password, digest, max_iterations) {
        let depth = choose|depth: nat|
            depth < max_iterations && hash_chain(password, depth) == digest;
        assert(hex_of(hash_chain(password, depth)) == hex_of(digest));
    }
}

} // verus!
