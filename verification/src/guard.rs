//! The role guard: a pure authorization gate evaluated before a resolver
//! body runs, and the static table of accepted roles per operation.

use crate::errors::ApiError;
use crate::roles::Role;
use crate::token::{
    spec_token, spec_verify, token_role, token_valid, verify_token, Claims, TokenConfig,
};
use vstd::prelude::*;

verus! {

/// The set of roles an operation accepts.
#[derive(Clone, Copy, Debug, PartialEq, Eq, Structural)]
pub struct RoleGuard {
    pub customer: bool,
    pub supplier: bool,
}

impl RoleGuard {
    /// Whether the guard accepts a role.
    pub open spec fn spec_allows(self, r: Role) -> bool {
        match r {
            Role::Customer => self.customer,
            Role::Supplier => self.supplier,
        }
    }

    /// Whether the guard accepts a role.
    pub fn allows(&self, r: Role) -> (b: bool)
        ensures
            b == self.spec_allows(r),
    {
        match r {
            Role::Customer => self.customer,
            Role::Supplier => self.supplier,
        }
    }

    /// A guard from the accepted roles.
    pub fn new(customer: bool, supplier: bool) -> (g: RoleGuard)
        ensures
            g == (RoleGuard { customer, supplier }),
    {
        RoleGuard { customer, supplier }
    }
}

/// Every operation the resolver layer exposes.
#[derive(Clone, Copy, Debug, PartialEq, Eq, Structural)]
pub enum Operation {
    ProductsWithId,
    ProductsWithName,
    Categories,
    GetUser,
    CustomerProfile,
    SupplierProfile,
    RegisterUser,
    RegisterCustomer,
    RegisterSupplier,
    Login,
}

/// The static guard of each operation; `None` means the operation is
/// public and takes no token.
pub open spec fn spec_guard_of(op: Operation) -> Option<RoleGuard> {
    match op {
        Operation::ProductsWithId => None,
        Operation::ProductsWithName => None,
        Operation::Categories => None,
        Operation::GetUser => Some(RoleGuard { customer: true, supplier: true }),
        Operation::CustomerProfile => Some(RoleGuard { customer: true, supplier: false }),
        Operation::SupplierProfile => Some(RoleGuard { customer: false, supplier: true }),
        Operation::RegisterUser => None,
        Operation::RegisterCustomer => Some(RoleGuard { customer: true, supplier: false }),
        Operation::RegisterSupplier => Some(RoleGuard { customer: false, supplier: true }),
        Operation::Login => None,
    }
}

/// The static guard of each operation.
pub fn guard_of(op: Operation) -> (g: Option<RoleGuard>)
    ensures
        g == spec_guard_of(op),
{
    match op {
        Operation::ProductsWithId => None,
        Operation::ProductsWithName => None,
        Operation::Categories => None,
        Operation::GetUser => Some(RoleGuard { customer: true, supplier: true }),
        Operation::CustomerProfile => Some(RoleGuard { customer: true, supplier: false }),
        Operation::SupplierProfile => Some(RoleGuard { customer: false, supplier: true }),
        Operation::RegisterUser => None,
        Operation::RegisterCustomer => Some(RoleGuard { customer: true, supplier: false }),
        Operation::RegisterSupplier => Some(RoleGuard { customer: false, supplier: true }),
        Operation::Login => None,
    }
}

/// What the guard decides for any token string: the caller's identity when
/// the token is valid and its role accepted, and otherwise the exact error,
/// decided before the operation has any side effect.
pub open spec fn spec_guard_check(
    key: Option<u64>,
    s: Seq<char>,
    now: u64,
    guard: RoleGuard,
) -> Result<(Seq<char>, Role), ApiError> {
    match key {
        None => Err(ApiError::Signing),
        Some(k) => if !token_valid(k, s, now) {
            Err(ApiError::Unauthenticated)
        } else if !guard.spec_allows(token_role(s)) {
            Err(ApiError::Forbidden)
        } else {
            Ok((s.subrange(0, 16), token_role(s)))
        },
    }
}

/// Evaluates a guard against a caller's token: an invalid or expired token
/// is an authentication failure, a valid token of an unaccepted role an
/// authorization failure.
pub fn guard_check(cfg: &TokenConfig, token: &str, now: u64, guard: &RoleGuard) -> (r: Result<
    Claims,
    ApiError,
>)
    ensures
        match r {
            Ok(c) => spec_guard_check(cfg.key, token@, now, *guard) == Ok::<
                (Seq<char>, Role),
                ApiError,
            >((c.user_id@, c.role)),
            Err(e) => spec_guard_check(cfg.key, token@, now, *guard) == Err::<
                (Seq<char>, Role),
                ApiError,
            >(e),
        },
{
    match verify_token(cfg, token, now) {
        Err(ApiError::Signing) => Err(ApiError::Signing),
        Err(_) => Err(ApiError::Unauthenticated),
        Ok(claims) => {
            if guard.allows(claims.role) {
                Ok(claims)
            } else {
                Err(ApiError::Forbidden)
            }
        },
    }
}

/// What the dispatch decides for any operation: a public operation passes
/// with no identity, a guarded one passes only a valid token of an accepted
/// role.
pub open spec fn spec_authorize(
    key: Option<u64>,
    op: Operation,
    token: Option<Seq<char>>,
    now: u64,
) -> Result<Option<(Seq<char>, Role)>, ApiError> {
    match spec_guard_of(op) {
        None => Ok(None),
        Some(g) => match token {
            None => Err(ApiError::Unauthenticated),
            Some(s) => match spec_guard_check(key, s, now, g) {
                Ok(c) => Ok(Some(c)),
                Err(e) => Err(e),
            },
        },
    }
}

/// The dispatch gate: evaluates the operation's static guard, before the
/// resolver body runs, against the token the caller supplied, if any.
pub fn authorize(cfg: &TokenConfig, op: Operation, token: Option<&str>, now: u64) -> (r: Result<
    Option<Claims>,
    ApiError,
>)
    ensures
        match r {
            Ok(None) => spec_authorize(cfg.key, op, spec_token_view(token), now) == Ok::<
                Option<(Seq<char>, Role)>,
                ApiError,
            >(None),
            Ok(Some(c)) => spec_authorize(cfg.key, op, spec_token_view(token), now) == Ok::<
                Option<(Seq<char>, Role)>,
                ApiError,
            >(Some((c.user_id@, c.role))),
            Err(e) => spec_authorize(cfg.key, op, spec_token_view(token), now) == Err::<
                Option<(Seq<char>, Role)>,
                ApiError,
            >(e),
        },
{
    match guard_of(op) {
        None => Ok(None),
        Some(g) => match token {
            None => Err(ApiError::Unauthenticated),
            Some(t) => match guard_check(cfg, t, now, &g) {
                Ok(c) => Ok(Some(c)),
                Err(e) => Err(e),
            },
        },
    }
}

/// The character view of an optional token string.
pub open spec fn spec_token_view(token: Option<&str>) -> Option<Seq<char>> {
    match token {
        None => None,
        Some(t) => Some(t@),
    }
}

/// A valid token of a role outside an operation's accepted set is turned
/// away with an authorization error, before the operation has any effect;
/// the outcome is decided by the guard alone.
pub proof fn lemma_guard_blocks_unlisted_role(
    key: u64,
    user_id: u64,
    role: Role,
    issued: u64,
    expiry: u64,
    now: u64,
    guard: RoleGuard,
)
    requires
        now < expiry,
        !guard.spec_allows(role),
    ensures
        spec_guard_check(Some(key), spec_token(key, user_id, role, issued, expiry), now, guard)
            == Err::<(Seq<char>, Role), ApiError>(ApiError::Forbidden),
{
    crate::token::lemma_token_round_trip(key, user_id, role, issued, expiry, now);
    let s = spec_token(key, user_id, role, issued, expiry);
    assert(spec_verify(Some(key), s, now) == Ok::<(Seq<char>, Role), ApiError>(
        (crate::hex::u64_hex(user_id), role),
    ));
    assert(token_valid(key, s, now));
    assert(token_role(s) == role);
}

} // verus!
