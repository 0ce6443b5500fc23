//! Password handling: the strength policy, salted one-way hashing, and
//! verification against a stored hash.
//!
//! A stored hash is a 33-character string: the salt as sixteen lowercase hex
//! digits, a separator, and a sixteen-digit tag digesting the password under
//! the salt. Weak input is the policy's business, not the hash's; a hash in
//! an unrecognized encoding is reported as unreadable, which is distinct
//! from an ordinary mismatch.

use crate::digest::{digest_of, digest_str_range};
use crate::errors::ApiError;
use crate::hex::{
    all_hex, hex_seq_val, lemma_hex_round_trip, parse_u64_hex_at, push_u64_hex, u64_hex,
};
use crate::text::string_from_chars;
use vstd::prelude::*;

verus! {

/// The least length the policy accepts.
pub const MIN_PASSWORD_LEN: usize = 8;

/// An ASCII letter.
pub open spec fn is_letter(c: char) -> bool {
    (65 <= c as u32 && c as u32 <= 90) || (97 <= c as u32 && c as u32 <= 122)
}

/// An ASCII digit.
pub open spec fn is_digit_char(c: char) -> bool {
    48 <= c as u32 && c as u32 <= 57
}

/// The strength policy: at least eight characters, among them a letter and
/// a digit.
pub open spec fn policy_ok(p: Seq<char>) -> bool {
    &&& p.len() >= MIN_PASSWORD_LEN
    &&& exists|i: int| 0 <= i < p.len() && is_letter(#[trigger] p[i])
    &&& exists|i: int| 0 <= i < p.len() && is_digit_char(#[trigger] p[i])
}

/// The stored hash of a password under a salt.
pub open spec fn spec_hash(p: Seq<char>, salt: u64) -> Seq<char> {
    u64_hex(salt) + seq!['$'] + u64_hex(digest_of(salt, p))
}

/// Whether a string has the shape of a stored hash.
pub open spec fn hash_wf(h: Seq<char>) -> bool {
    &&& h.len() == 33
    &&& all_hex(h.subrange(0, 16))
    &&& h[16] == '$'
    &&& all_hex(h.subrange(17, 33))
}

/// The salt a well-formed hash carries.
pub open spec fn hash_salt_val(h: Seq<char>) -> int {
    hex_seq_val(h.subrange(0, 16))
}

/// Whether a password matches a well-formed stored hash: its digest under
/// the stored salt equals the stored tag.
pub open spec fn hash_matches(p: Seq<char>, h: Seq<char>) -> bool {
    hex_seq_val(h.subrange(17, 33)) == digest_of(hash_salt_val(h) as u64, p) as int
}

/// Checks the strength policy. This runs before hashing at registration:
/// weak input is rejected here, never by the hash itself.
pub fn check_password_strength(p: &str) -> (r: Result<(), ApiError>)
    ensures
        r is Ok <==> policy_ok(p@),
        r is Err ==> r == Err::<(), ApiError>(ApiError::Policy),
{
    let n = p.unicode_len();
    if n < MIN_PASSWORD_LEN {
        return Err(ApiError::Policy);
    }
    let mut has_letter = false;
    let mut has_digit = false;
    let mut i: usize = 0;
    while i < n
        invariant
            i <= n,
            n == p@.len(),
            has_letter <==> exists|t: int| 0 <= t < i && is_letter(#[trigger] p@[t]),
            has_digit <==> exists|t: int| 0 <= t < i && is_digit_char(#[trigger] p@[t]),
        decreases n - i,
    {
        let c = p.get_char(i);
        let u = c as u32;
        if (65 <= u && u <= 90) || (97 <= u && u <= 122) {
            has_letter = true;
        }
        if 48 <= u && u <= 57 {
            has_digit = true;
        }
        i = i + 1;
    }
    if has_letter && has_digit {
        Ok(())
    } else {
        Err(ApiError::Policy)
    }
}

/// Hashes a password under a salt. One-way: the stored string holds only
/// the salt and a digest, never the password. The result is an error only
/// on an underlying failure, of which this encoding has none.
pub fn hash_password(p: &str, salt: u64) -> (r: Result<String, ApiError>)
    ensures
        r matches Ok(h) && h@ == spec_hash(p@, salt),
{
    let tag = digest_str_range(salt, p, 0, p.unicode_len());
    proof {
        assert(p@.subrange(0, p@.len() as int) =~= p@);
    }
    let mut v: Vec<char> = Vec::new();
    push_u64_hex(&mut v, salt);
    v.push('$');
    push_u64_hex(&mut v, tag);
    proof {
        assert(v@ =~= spec_hash(p@, salt));
    }
    Ok(string_from_chars(&v))
}

/// Verifies a password against a stored hash. A hash that is not in the
/// recognized encoding is an error, distinct from a mismatch, which is
/// `Ok(false)`.
pub fn verify_password(p: &str, hash: &str) -> (r: Result<bool, ApiError>)
    ensures
        r is Ok <==> hash_wf(hash@),
        r matches Ok(b) ==> b == hash_matches(p@, hash@),
        r is Err ==> r == Err::<bool, ApiError>(ApiError::UnreadableHash),
{
    if hash.unicode_len() != 33 {
        return Err(ApiError::UnreadableHash);
    }
    let salt = match parse_u64_hex_at(hash, 0) {
        None => {
            return Err(ApiError::UnreadableHash);
        },
        Some(v) => v,
    };
    if hash.get_char(16) != '$' {
        return Err(ApiError::UnreadableHash);
    }
    let tag = match parse_u64_hex_at(hash, 17) {
        None => {
            return Err(ApiError::UnreadableHash);
        },
        Some(v) => v,
    };
    let h = digest_str_range(salt, p, 0, p.unicode_len());
    proof {
        assert(p@.subrange(0, p@.len() as int) =~= p@);
    }
    Ok(tag == h)
}

/// A password always verifies against its own fresh hash, whatever the salt.
pub proof fn lemma_password_round_trip(p: Seq<char>, salt: u64)
    ensures
        hash_wf(spec_hash(p, salt)),
        hash_matches(p, spec_hash(p, salt)),
{
    let h = spec_hash(p, salt);
    lemma_hex_round_trip(salt);
    lemma_hex_round_trip(digest_of(salt, p));
    assert(h.subrange(0, 16) =~= u64_hex(salt));
    assert(h[16] == '$');
    assert(h.subrange(17, 33) =~= u64_hex(digest_of(salt, p)));
}

/// A different password does not verify against the hash, as long as its
/// digest under the stored salt differs from the right password's digest.
pub proof fn lemma_wrong_password_rejected(p: Seq<char>, other: Seq<char>, salt: u64)
    requires
        digest_of(salt, other) != digest_of(salt, p),
    ensures
        !hash_matches(other, spec_hash(p, salt)),
{
    lemma_password_round_trip(p, salt);
    lemma_hex_round_trip(salt);
    lemma_hex_round_trip(digest_of(salt, p));
    assert(spec_hash(p, salt).subrange(0, 16) =~= u64_hex(salt));
    assert(spec_hash(p, salt).subrange(17, 33) =~= u64_hex(digest_of(salt, p)));
}

} // verus!
