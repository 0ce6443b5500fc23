//! The two recognized roles, their wire names, and role parsing.

use crate::errors::ApiError;
use crate::text::str_eq;
use vstd::prelude::*;

verus! {

/// A caller's role, carried inside a verified token.
#[derive(Clone, Copy, Debug, PartialEq, Eq, Structural)]
pub enum Role {
    Customer,
    Supplier,
}

/// The character standing for a role inside a token.
pub open spec fn role_char_of(r: Role) -> char {
    match r {
        Role::Customer => 'c',
        Role::Supplier => 's',
    }
}

/// The wire name of a role, as registration inputs spell it.
pub open spec fn role_name_of(r: Role) -> Seq<char> {
    match r {
        Role::Customer => "customer"@,
        Role::Supplier => "supplier"@,
    }
}

/// The role named by a string: the two recognized role strings map to their
/// roles, everything else is rejected.
pub open spec fn spec_parse_role(s: Seq<char>) -> Result<Role, ApiError> {
    if s == "customer"@ {
        Ok(Role::Customer)
    } else if s == "supplier"@ {
        Ok(Role::Supplier)
    } else {
        Err(ApiError::InvalidRole)
    }
}

impl Role {
    /// The character standing for this role inside a token.
    pub fn as_char(&self) -> (c: char)
        ensures
            c == role_char_of(*self),
    {
        match self {
            Role::Customer => 'c',
            Role::Supplier => 's',
        }
    }

    /// The wire name of this role.
    pub fn name(&self) -> (r: &'static str)
        ensures
            r@ == role_name_of(*self),
    {
        match self {
            Role::Customer => "customer",
            Role::Supplier => "supplier",
        }
    }
}

/// A role's wire name parses back to the role.
pub proof fn lemma_role_name_round_trip(r: Role)
    ensures
        spec_parse_role(role_name_of(r)) == Ok::<Role, ApiError>(r),
{
    proof_roles_distinct();
}

/// The two wire names differ.
proof fn proof_roles_distinct()
    ensures
        "customer"@ != "supplier"@,
{
    reveal_strlit("customer");
    reveal_strlit("supplier");
    assert("customer"@[0] != "supplier"@[0]);
}

/// Parses a role string: exactly the two recognized names are accepted.
pub fn parse_role(s: &str) -> (r: Result<Role, ApiError>)
    ensures
        r == spec_parse_role(s@),
{
    if str_eq(s, "customer") {
        Ok(Role::Customer)
    } else if str_eq(s, "supplier") {
        Ok(Role::Supplier)
    } else {
        Err(ApiError::InvalidRole)
    }
}

} // verus!
