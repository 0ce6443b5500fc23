//! The error taxonomy of the core: every failure an operation can report.
//! Each failure is surfaced directly to the caller; nothing is retried or
//! silently suppressed.

use vstd::prelude::*;

verus! {

/// Every failure a core operation can report.
#[derive(Clone, Copy, Debug, PartialEq, Eq, Structural)]
pub enum ApiError {
    /// The guard's report: no token where one is needed, or an invalid one.
    Unauthenticated,
    /// The token service's report: a token that is malformed, whose
    /// signature does not verify, or that has expired.
    InvalidToken,
    /// A valid token whose role the operation does not accept.
    Forbidden,
    /// The signing secret is unavailable or misconfigured.
    Signing,
    /// Registration with an email that already has a row.
    DuplicateEmail,
    /// Registration with a role string that names no recognized role.
    InvalidRole,
    /// A password below the strength policy.
    Policy,
    /// A caller identity whose user id does not read back as a number.
    InvalidIdentity,
    /// No row for the requested profile or email.
    NotFound,
    /// A well-formed stored hash that does not match the given password.
    WrongPassword,
    /// A stored hash that is not in the recognized encoding.
    UnreadableHash,
    /// An opaque failure reported by the data store.
    Store,
}

/// The user-facing message of each error.
pub open spec fn message_of(e: ApiError) -> Seq<char> {
    match e {
        ApiError::Unauthenticated => "Unauthenticated"@,
        ApiError::InvalidToken => "Invalid token"@,
        ApiError::Forbidden => "Forbidden"@,
        ApiError::Signing => "Token signing failed"@,
        ApiError::DuplicateEmail => "User already exists"@,
        ApiError::InvalidRole => "Invalid role"@,
        ApiError::Policy => "Password below strength policy"@,
        ApiError::InvalidIdentity => "Invalid identity"@,
        ApiError::NotFound => "Not found"@,
        ApiError::WrongPassword => "Invalid password"@,
        ApiError::UnreadableHash => "Password not readable, please reset password"@,
        ApiError::Store => "Store error"@,
    }
}

impl ApiError {
    /// The user-facing message attached to a failed operation.
    pub fn message(&self) -> (r: &'static str)
        ensures
            r@ == message_of(*self),
    {
        match self {
            ApiError::Unauthenticated => "Unauthenticated",
            ApiError::InvalidToken => "Invalid token",
            ApiError::Forbidden => "Forbidden",
            ApiError::Signing => "Token signing failed",
            ApiError::DuplicateEmail => "User already exists",
            ApiError::InvalidRole => "Invalid role",
            ApiError::Policy => "Password below strength policy",
            ApiError::InvalidIdentity => "Invalid identity",
            ApiError::NotFound => "Not found",
            ApiError::WrongPassword => "Invalid password",
            ApiError::UnreadableHash => "Password not readable, please reset password",
            ApiError::Store => "Store error",
        }
    }
}

} // verus!
