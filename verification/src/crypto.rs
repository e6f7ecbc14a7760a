//! The credential scheme over raw digests.
//!
//! A password is stored as one value of the SHA-512 chain that starts at the
//! password's own digest: at encoding time a chain depth is drawn at random
//! below a fixed bound, so the same password yields unlinkable stored digests
//! across accounts. Validation scans every admissible depth of the candidate
//! password's chain and accepts exactly when the stored digest lies on it.
use rand::Rng;
use vstd::prelude::*;

verus! {

use vstd::string::*;
use crate::text::bytes_eq;

/// The SHA-512 digest of a byte sequence, left uninterpreted: contracts say
/// where a digest sits on a chain, never what its bytes are.
pub uninterp spec fn sha512_of(input: Seq<u8>) -> Seq<u8>;

/// The hash chain over a password's bytes: depth 0 is the digest of the
/// password itself, and each further step hashes the previous digest.
pub open spec fn hash_chain(password: Seq<u8>, depth: nat) -> Seq<u8>
    decreases depth,
{
    if depth == 0 {
        sha512_of(password)
    } else {
        sha512_of(hash_chain(password, (depth - 1) as nat))
    }
}

/// A stored digest is valid for a password under a bound iff it lies on the
/// password's hash chain at some depth below the bound.
pub open spec fn digest_matches(password: Seq<u8>, digest: Seq<u8>, max_iterations: u8) -> bool {
    exists|depth: nat| depth < max_iterations && hash_chain(password, depth) == digest
}

/// Relies on hmac_sha512::Hash::hash: the SHA-512 digest of the input bytes.
#[verifier::external_body]
pub(crate) fn sha512(input: &[u8]) -> (digest: [u8; 64])
    ensures
        digest@ == sha512_of(input@),
{
    hmac_sha512::Hash::hash(input)
}

/// Relies on rand's Rng::gen_range on `0..max_iterations`: a value drawn
/// uniformly from the range, hence below the bound. The range may not be
/// empty, as gen_range panics on one.
#[verifier::external_body]
pub(crate) fn draw_depth(max_iterations: u8) -> (depth: u8)
    requires
        max_iterations >= 1,
    ensures
        depth < max_iterations,
{
    rand::thread_rng().gen_range(0..max_iterations)
}

/// Encode a password for storage: hash it, then walk its chain to a depth
/// drawn at random below the bound. The result is always a digest the
/// validator accepts for this password under the same bound.
pub fn encode_password(password: &str, max_iterations: u8) -> (digest: [u8; 64])
    requires
        max_iterations >= 1,
    ensures
        digest_matches(password.spec_bytes(), digest@, max_iterations),
{
    let mut content = sha512(password.as_bytes());
    let depth = draw_depth(max_iterations);
    for i in 0..depth
        invariant
            depth < max_iterations,
            content@ == hash_chain(password.spec_bytes(), i as nat),
    {
        content = sha512(content.as_slice());
    }
    assert(hash_chain(password.spec_bytes(), depth as nat) == content@);
    content
}

/// Check a candidate password against a stored digest: recompute the
/// candidate's chain and compare at every depth below the bound. Returns
/// true exactly when the stored digest lies on the candidate's chain there.
pub fn validate_password(password: &str, hash: &[u8], max_iterations: u8) -> (valid: bool)
    ensures
        valid == digest_matches(password.spec_bytes(), hash@, max_iterations),
{
    let mut content = sha512(password.as_bytes());
    for i in 0..max_iterations
        invariant
            content@ == hash_chain(password.spec_bytes(), i as nat),
            forall|d: nat| d < i ==> hash_chain(password.spec_bytes(), d) != hash@,
    {
        if bytes_eq(content.as_slice(), hash) {
            assert(hash_chain(password.spec_bytes(), i as nat) == hash@);
            return true;
        }
        content = sha512(content.as_slice());
    }
    false
}

/// Round trip: every digest the encoder can produce for a password and
/// bound — a chain value at some admissible depth — is one the validator
/// accepts for that password under that bound.
pub proof fn lemma_round_trip(password: Seq<u8>, depth: nat, max_iterations: u8)
    requires
        depth < max_iterations,
    ensures
        digest_matches(password, hash_chain(password, depth), max_iterations),
{
    let digest = hash_chain(password, depth);
    assert(depth < max_iterations && hash_chain(password, depth) == digest);
}

/// Rejection: a stored digest is accepted only through the candidate's own
/// chain — when no admissible depth of that chain reaches the digest,
/// validation fails.
pub proof fn lemma_rejection(candidate: Seq<u8>, digest: Seq<u8>, max_iterations: u8)
    requires
        forall|depth: nat| depth < max_iterations ==> hash_chain(candidate, depth) != digest,
    ensures
        !digest_matches(candidate, digest, max_iterations),
{
}

/// With a bound of one the scheme is deterministic: the only digest that
/// matches a password is the password's own SHA-512 digest.
pub proof fn lemma_single_iteration(password: Seq<u8>, digest: Seq<u8>)
    ensures
        digest_matches(password, digest, 1) <==> digest == sha512_of(password),
{
    if digest_matches(password, digest, 1) {
        let depth = choose|depth: nat| depth < 1 && hash_chain(password, depth) == digest;
        assert(depth == 0);
    }
    if digest == sha512_of(password) {
        assert(hash_chain(password, 0) == digest);
    }
}

} // verus!
