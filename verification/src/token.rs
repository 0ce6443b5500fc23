//! The token service: issues and verifies signed bearer tokens carrying a
//! user identity and a role.
//!
//! A token is a 65-character string: the user id, the issue time and the
//! expiry as sixteen lowercase hex digits each, one character naming the
//! role between the id and the issue time, and a sixteen-digit tag signing
//! the first 49 characters with the process-wide secret. A token is valid
//! only if its tag matches and it has not expired; it carries no persisted
//! state and is never revoked, it only expires.

use crate::digest::{digest_chars, digest_of, digest_str_range};
use crate::errors::ApiError;
use crate::hex::{
    all_hex, hex_seq_val, lemma_hex_round_trip, lemma_u64_hex_all_hex, parse_u64_hex_at,
    push_u64_hex, u64_hex,
};
use crate::roles::{role_char_of, Role};
use crate::text::string_from_chars;
use vstd::prelude::*;

verus! {

/// The process-wide token configuration: the signing secret, if one was
/// configured, and how long an issued token lives. It is loaded once at
/// startup and never mutated during request handling.
#[derive(Clone, Copy, Debug)]
pub struct TokenConfig {
    /// The signing secret; `None` when the secret is unavailable or
    /// misconfigured, in which case every issue and verify attempt fails.
    pub key: Option<u64>,
    /// Seconds from issue to expiry of a new token.
    pub ttl_seconds: u64,
}

/// The identity recovered from a verified token. The user id is handed back
/// in its textual form; callers that need the number parse it with
/// [`parse_user_id`].
#[derive(Clone, Debug, PartialEq, Eq)]
pub struct Claims {
    pub user_id: String,
    pub role: Role,
}

/// The unsigned part of a token: id, role character, issue time, expiry.
pub open spec fn token_body(user_id: u64, role: Role, issued: u64, expiry: u64) -> Seq<char> {
    u64_hex(user_id) + seq![role_char_of(role)] + u64_hex(issued) + u64_hex(expiry)
}

/// A whole token: the body followed by its tag under `key`.
pub open spec fn spec_token(key: u64, user_id: u64, role: Role, issued: u64, expiry: u64) -> Seq<
    char,
> {
    token_body(user_id, role, issued, expiry) + u64_hex(
        digest_of(key, token_body(user_id, role, issued, expiry)),
    )
}

/// Whether a character sequence has the shape of a token.
pub open spec fn token_wf(s: Seq<char>) -> bool {
    &&& s.len() == 65
    &&& all_hex(s.subrange(0, 16))
    &&& (s[16] == 'c' || s[16] == 's')
    &&& all_hex(s.subrange(17, 33))
    &&& all_hex(s.subrange(33, 49))
    &&& all_hex(s.subrange(49, 65))
}

/// The role named by a well-formed token.
pub open spec fn token_role(s: Seq<char>) -> Role {
    if s[16] == 'c' {
        Role::Customer
    } else {
        Role::Supplier
    }
}

/// The expiry a well-formed token carries.
pub open spec fn token_expiry_val(s: Seq<char>) -> int {
    hex_seq_val(s.subrange(33, 49))
}

/// Whether the tag of a token signs its body under `key`.
pub open spec fn token_signed(key: u64, s: Seq<char>) -> bool {
    hex_seq_val(s.subrange(49, 65)) == digest_of(key, s.take(49)) as int
}

/// A token is valid when it is well formed, its signature verifies, and it
/// has not expired.
pub open spec fn token_valid(key: u64, s: Seq<char>, now: u64) -> bool {
    token_wf(s) && token_signed(key, s) && (now as int) < token_expiry_val(s)
}

/// What verification returns for any token string: the identity's textual
/// user id and role, or the exact error.
pub open spec fn spec_verify(key: Option<u64>, s: Seq<char>, now: u64) -> Result<
    (Seq<char>, Role),
    ApiError,
> {
    match key {
        None => Err(ApiError::Signing),
        Some(k) => if token_valid(k, s, now) {
            Ok((s.subrange(0, 16), token_role(s)))
        } else {
            Err(ApiError::InvalidToken)
        },
    }
}

/// Issues a token for `user_id` and `role` at time `now`, signed with the
/// configured secret; fails only when the secret is unavailable.
pub fn create_token(cfg: &TokenConfig, user_id: u64, role: Role, now: u64) -> (r: Result<
    String,
    ApiError,
>)
    requires
        now + cfg.ttl_seconds <= u64::MAX,
    ensures
        cfg.key is None ==> r == Err::<String, ApiError>(ApiError::Signing),
        cfg.key matches Some(k) ==> (r matches Ok(t) && t@ == spec_token(
            k,
            user_id,
            role,
            now,
            (now + cfg.ttl_seconds) as u64,
        )),
{
    match cfg.key {
        None => Err(ApiError::Signing),
        Some(key) => {
            let expiry = now + cfg.ttl_seconds;
            let mut v: Vec<char> = Vec::new();
            push_u64_hex(&mut v, user_id);
            v.push(role.as_char());
            push_u64_hex(&mut v, now);
            push_u64_hex(&mut v, expiry);
            proof {
                assert(v@ =~= token_body(user_id, role, now, expiry));
            }
            let tag = digest_chars(key, &v);
            push_u64_hex(&mut v, tag);
            proof {
                assert(v@ =~= spec_token(key, user_id, role, now, expiry));
            }
            Ok(string_from_chars(&v))
        },
    }
}

/// Verifies a token string at time `now` and returns the identity it
/// carries, or says exactly why it is rejected.
pub fn verify_token(cfg: &TokenConfig, token: &str, now: u64) -> (r: Result<Claims, ApiError>)
    ensures
        match r {
            Ok(c) => spec_verify(cfg.key, token@, now) == Ok::<(Seq<char>, Role), ApiError>(
                (c.user_id@, c.role),
            ),
            Err(e) => spec_verify(cfg.key, token@, now) == Err::<(Seq<char>, Role), ApiError>(e),
        },
{
    let key = match cfg.key {
        None => {
            return Err(ApiError::Signing);
        },
        Some(k) => k,
    };
    let n = token.unicode_len();
    if n != 65 {
        return Err(ApiError::InvalidToken);
    }
    if parse_u64_hex_at(token, 0).is_none() {
        return Err(ApiError::InvalidToken);
    }
    let role_c = token.get_char(16);
    let role = if role_c == 'c' {
        Role::Customer
    } else if role_c == 's' {
        Role::Supplier
    } else {
        return Err(ApiError::InvalidToken);
    };
    if parse_u64_hex_at(token, 17).is_none() {
        return Err(ApiError::InvalidToken);
    }
    let expiry = match parse_u64_hex_at(token, 33) {
        None => {
            return Err(ApiError::InvalidToken);
        },
        Some(e) => e,
    };
    let tag = match parse_u64_hex_at(token, 49) {
        None => {
            return Err(ApiError::InvalidToken);
        },
        Some(t) => t,
    };
    let h = digest_str_range(key, token, 0, 49);
    proof {
        assert(token@.take(49) =~= token@.subrange(0, 49));
    }
    if tag != h {
        return Err(ApiError::InvalidToken);
    }
    if !(now < expiry) {
        return Err(ApiError::InvalidToken);
    }
    let user_id = token.substring_char(0, 16).to_owned();
    assert(token_valid(key, token@, now));
    Ok(Claims { user_id, role })
}

/// Reads a textual user id back as a number; rejects anything that is not
/// the sixteen-hex-digit form a verified token carries.
pub fn parse_user_id(s: &str) -> (r: Result<u64, ApiError>)
    ensures
        r is Ok <==> (s@.len() == 16 && all_hex(s@)),
        r matches Ok(v) ==> v as int == hex_seq_val(s@),
        r is Err ==> r == Err::<u64, ApiError>(ApiError::InvalidIdentity),
{
    if s.unicode_len() != 16 {
        return Err(ApiError::InvalidIdentity);
    }
    proof {
        assert(s@.subrange(0, 16) =~= s@);
    }
    match parse_u64_hex_at(s, 0) {
        Some(v) => Ok(v),
        None => Err(ApiError::InvalidIdentity),
    }
}

/// The token round trip: a token issued for an identity and verified before
/// its expiry yields back exactly that identity, and the textual user id it
/// carries reads back as the number it was issued for.
pub proof fn lemma_token_round_trip(
    key: u64,
    user_id: u64,
    role: Role,
    issued: u64,
    expiry: u64,
    now: u64,
)
    requires
        now < expiry,
    ensures
        spec_verify(Some(key), spec_token(key, user_id, role, issued, expiry), now) == Ok::<
            (Seq<char>, Role),
            ApiError,
        >((u64_hex(user_id), role)),
        hex_seq_val(u64_hex(user_id)) == user_id as int,
{
    let body = token_body(user_id, role, issued, expiry);
    let s = spec_token(key, user_id, role, issued, expiry);
    let tag = digest_of(key, body);
    lemma_u64_hex_all_hex(user_id);
    lemma_u64_hex_all_hex(issued);
    lemma_hex_round_trip(user_id);
    lemma_hex_round_trip(expiry);
    lemma_hex_round_trip(tag);
    assert(s.len() == 65);
    assert(s.subrange(0, 16) =~= u64_hex(user_id));
    assert(s[16] == role_char_of(role));
    assert(s.subrange(17, 33) =~= u64_hex(issued));
    assert(s.subrange(33, 49) =~= u64_hex(expiry));
    assert(s.subrange(49, 65) =~= u64_hex(tag));
    assert(s.take(49) =~= body);
    assert(token_wf(s));
    assert(token_signed(key, s));
    assert(token_expiry_val(s) == expiry as int);
    match role {
        Role::Customer => {
            assert(token_role(s) == role);
        },
        Role::Supplier => {
            assert(token_role(s) == role);
        },
    }
}

} // verus!
