//! The request-time logic of the guarded operations: profile reads keyed by
//! the caller's verified identity, profile registration, and login.
//!
//! Each function here is the decision half of a resolver: the store's reads
//! and writes happen outside, and hand rows in or take validated inserts
//! back as plain values.

use crate::errors::ApiError;
use crate::guard::{guard_check, spec_guard_check, spec_guard_of, Operation};
use crate::hex::hex_seq_val;
use crate::models::{NewCustomer, NewSupplier, RegisterCustomer, RegisterSupplier, UserRowV};
use crate::password::{hash_matches, hash_wf, verify_password};
use crate::roles::Role;
use crate::token::{create_token, parse_user_id, spec_token, TokenConfig};
use vstd::prelude::*;

verus! {

/// What a guarded identity lookup decides for any token: the numeric user
/// id the operation is keyed by, or the guard's exact error.
pub open spec fn spec_profile_query(
    key: Option<u64>,
    op: Operation,
    s: Seq<char>,
    now: u64,
) -> Result<int, ApiError>
    recommends
        spec_guard_of(op) is Some,
{
    match spec_guard_check(key, s, now, spec_guard_of(op)->Some_0) {
        Err(e) => Err(e),
        Ok((uid, _)) => Ok(hex_seq_val(uid)),
    }
}

/// Evaluates a guarded operation's gate and returns the numeric user id the
/// caller's token carries; the row lookup it keys happens outside.
pub fn profile_query(cfg: &TokenConfig, op: Operation, token: &str, now: u64) -> (r: Result<
    u64,
    ApiError,
>)
    requires
        spec_guard_of(op) is Some,
    ensures
        match r {
            Ok(v) => spec_profile_query(cfg.key, op, token@, now) == Ok::<int, ApiError>(v as int),
            Err(e) => spec_profile_query(cfg.key, op, token@, now) == Err::<int, ApiError>(e),
        },
{
    let g = match crate::guard::guard_of(op) {
        Some(g) => g,
        None => {
            return Err(ApiError::Unauthenticated);
        },
    };
    let claims = match guard_check(cfg, token, now, &g) {
        Err(e) => {
            return Err(e);
        },
        Ok(c) => c,
    };
    match parse_user_id(claims.user_id.as_str()) {
        Ok(v) => Ok(v),
        Err(e) => Err(e),
    }
}

/// Turns an absent row into the explicit error every "exactly one row
/// expected" lookup reports.
pub fn row_or_not_found<T>(row: Option<T>) -> (r: Result<T, ApiError>)
    ensures
        match row {
            Some(v) => r == Ok::<T, ApiError>(v),
            None => r == Err::<T, ApiError>(ApiError::NotFound),
        },
{
    match row {
        Some(v) => Ok(v),
        None => Err(ApiError::NotFound),
    }
}

/// Validates a customer-profile registration: the caller must pass the
/// customer guard, and the insert is keyed by the identity's numeric id.
pub fn register_customer_begin(
    cfg: &TokenConfig,
    token: &str,
    now: u64,
    input: &RegisterCustomer,
) -> (r: Result<NewCustomer, ApiError>)
    ensures
        match r {
            Ok(nc) => spec_profile_query(cfg.key, Operation::RegisterCustomer, token@, now)
                == Ok::<int, ApiError>(nc.user_id as int) && nc.first_name@ == input.first_name@
                && nc.last_name@ == input.last_name@,
            Err(e) => spec_profile_query(cfg.key, Operation::RegisterCustomer, token@, now)
                == Err::<int, ApiError>(e),
        },
{
    let user_id = match profile_query(cfg, Operation::RegisterCustomer, token, now) {
        Ok(v) => v,
        Err(e) => {
            return Err(e);
        },
    };
    Ok(
        NewCustomer {
            user_id,
            first_name: input.first_name.clone(),
            last_name: input.last_name.clone(),
        },
    )
}

/// Validates a supplier-profile registration: the caller must pass the
/// supplier guard, and the insert carries the supplier's contact field.
pub fn register_supplier_begin(
    cfg: &TokenConfig,
    token: &str,
    now: u64,
    input: &RegisterSupplier,
) -> (r: Result<NewSupplier, ApiError>)
    ensures
        match r {
            Ok(ns) => spec_profile_query(cfg.key, Operation::RegisterSupplier, token@, now)
                == Ok::<int, ApiError>(ns.user_id as int) && ns.contact_phone@
                == input.contact_phone@,
            Err(e) => spec_profile_query(cfg.key, Operation::RegisterSupplier, token@, now)
                == Err::<int, ApiError>(e),
        },
{
    let user_id = match profile_query(cfg, Operation::RegisterSupplier, token, now) {
        Ok(v) => v,
        Err(e) => {
            return Err(e);
        },
    };
    Ok(NewSupplier { user_id, contact_phone: input.contact_phone.clone() })
}

/// What login decides for any fetched credential row: the exact token on a
/// match, and otherwise which of the three distinct failures it is — no
/// row, an unreadable stored hash, or an ordinary mismatch.
pub open spec fn spec_login(
    key: Option<u64>,
    ttl: u64,
    user: Option<UserRowV>,
    pass: Seq<char>,
    now: u64,
) -> Result<Seq<char>, ApiError> {
    match user {
        None => Err(ApiError::NotFound),
        Some(u) => if !hash_wf(u.password) {
            Err(ApiError::UnreadableHash)
        } else if !hash_matches(pass, u.password) {
            Err(ApiError::WrongPassword)
        } else {
            match key {
                None => Err(ApiError::Signing),
                Some(k) => Ok(spec_token(k, u.user_id, u.role, now, (now + ttl) as u64)),
            }
        },
    }
}

/// Logs a caller in against the credential row fetched for the given email:
/// verifies the password against the stored hash and issues a token. A
/// missing row, an unreadable hash and a wrong password are three distinct
/// outcomes.
pub fn login_op(
    cfg: &TokenConfig,
    user: Option<&crate::models::UserRow>,
    password: &str,
    now: u64,
) -> (r: Result<String, ApiError>)
    requires
        now + cfg.ttl_seconds <= u64::MAX,
    ensures
        ({
            let spec_user = match user {
                None => None,
                Some(u) => Some(u@),
            };
            match r {
                Ok(t) => spec_login(cfg.key, cfg.ttl_seconds, spec_user, password@, now) == Ok::<
                    Seq<char>,
                    ApiError,
                >(t@),
                Err(e) => spec_login(cfg.key, cfg.ttl_seconds, spec_user, password@, now) == Err::<
                    Seq<char>,
                    ApiError,
                >(e),
            }
        }),
{
    let u = match user {
        None => {
            return Err(ApiError::NotFound);
        },
        Some(u) => u,
    };
    match verify_password(password, u.password.as_str()) {
        Err(_) => Err(ApiError::UnreadableHash),
        Ok(false) => Err(ApiError::WrongPassword),
        Ok(true) => create_token(cfg, u.user_id, u.role, now),
    }
}

/// For every operation and every role outside its accepted set, a valid
/// token of that role is turned away with the authorization error: the
/// operation never learns the identity its read or write would be keyed
/// by, so the store is never touched.
pub proof fn lemma_forbidden_role_blocks_operation(
    key: u64,
    user_id: u64,
    role: Role,
    issued: u64,
    expiry: u64,
    now: u64,
    op: Operation,
)
    requires
        now < expiry,
        spec_guard_of(op) is Some,
        !spec_guard_of(op)->Some_0.spec_allows(role),
    ensures
        spec_profile_query(Some(key), op, spec_token(key, user_id, role, issued, expiry), now)
            == Err::<int, ApiError>(ApiError::Forbidden),
{
    crate::guard::lemma_guard_blocks_unlisted_role(
        key,
        user_id,
        role,
        issued,
        expiry,
        now,
        spec_guard_of(op)->Some_0,
    );
}

/// A wrong password and an unreadable stored hash are distinct login
/// failures: a well-formed hash the password does not match reports a
/// mismatch, a malformed hash reports unreadability, and the two errors
/// are never the same value.
pub proof fn lemma_login_failures_distinct(
    key: Option<u64>,
    ttl: u64,
    good: UserRowV,
    bad: UserRowV,
    pass: Seq<char>,
    now: u64,
)
    requires
        hash_wf(good.password),
        !hash_matches(pass, good.password),
        !hash_wf(bad.password),
    ensures
        spec_login(key, ttl, Some(good), pass, now) == Err::<Seq<char>, ApiError>(
            ApiError::WrongPassword,
        ),
        spec_login(key, ttl, Some(bad), pass, now) == Err::<Seq<char>, ApiError>(
            ApiError::UnreadableHash,
        ),
        ApiError::WrongPassword != ApiError::UnreadableHash,
{
}

} // verus!
