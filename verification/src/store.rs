//! An in-memory users table with the email-uniqueness invariant the
//! registration flow relies on, and the whole registration operation over
//! it. In deployment the rows live in the relational store; this table
//! gives the same check-then-insert sequence a verified state to act on.
//!
//! The duplicate check and the insert are two steps here as in the store,
//! executed atomically only because this table is owned exclusively;
//! whether the store itself should also enforce uniqueness is left open.

use crate::errors::ApiError;
use crate::models::{RegisterUser, UserRow, UserRowV};
use crate::password::{check_password_strength, hash_password, policy_ok, spec_hash};
use crate::roles::{spec_parse_role, parse_role, Role};
use crate::text::str_eq;
use crate::token::{create_token, spec_token, TokenConfig};
use vstd::prelude::*;

verus! {

/// The users table: rows with pairwise distinct emails, and the id the next
/// insert takes.
#[derive(Debug)]
pub struct UsersTable {
    pub rows: Vec<UserRow>,
    pub next_id: u64,
}

impl UsersTable {
    /// The mathematical view of the table: its rows' views in order.
    pub open spec fn rows_view(self) -> Seq<UserRowV> {
        Seq::new(self.rows@.len(), |i: int| self.rows@[i]@)
    }

    /// The table's invariant: emails are pairwise distinct and every stored
    /// id is below the next one.
    pub open spec fn wf(self) -> bool {
        &&& forall|i: int, j: int|
            0 <= i < j < self.rows_view().len() ==> #[trigger] self.rows_view()[i].email
                != #[trigger] self.rows_view()[j].email
        &&& forall|i: int|
            0 <= i < self.rows_view().len() ==> #[trigger] self.rows_view()[i].user_id
                < self.next_id
    }

    /// Whether some row holds this email.
    pub open spec fn has_email(self, email: Seq<char>) -> bool {
        exists|i: int| 0 <= i < self.rows_view().len() && #[trigger] self.rows_view()[i].email
            == email
    }

    /// An empty table.
    pub fn new() -> (t: UsersTable)
        ensures
            t.wf(),
            t.rows_view() == Seq::<UserRowV>::empty(),
            t.next_id == 1,
    {
        let t = UsersTable { rows: Vec::new(), next_id: 1 };
        proof {
            assert(t.rows_view() =~= Seq::<UserRowV>::empty());
        }
        t
    }

    /// The index of the row holding this email, if any.
    pub fn find_by_email(&self, email: &str) -> (r: Option<usize>)
        ensures
            match r {
                Some(i) => i < self.rows_view().len() && self.rows_view()[i as int].email
                    == email@,
                None => !self.has_email(email@),
            },
    {
        let mut i: usize = 0;
        while i < self.rows.len()
            invariant
                i <= self.rows@.len(),
                forall|t: int| 0 <= t < i ==> #[trigger] self.rows_view()[t].email != email@,
            decreases self.rows@.len() - i,
        {
            if str_eq(self.rows[i].email.as_str(), email) {
                return Some(i);
            }
            i = i + 1;
        }
        None
    }
}

/// What registration decides and writes for any table state and input, in
/// order: the duplicate check, then the role check, then the policy check,
/// then the hash, the insert, and the token. The token comes after the
/// insert, so when the secret is missing the row is still inserted and the
/// token step reports the failure.
pub open spec fn spec_register_user_op(
    rows: Seq<UserRowV>,
    next_id: u64,
    email: Seq<char>,
    role_s: Seq<char>,
    pass: Seq<char>,
    salt: u64,
    key: Option<u64>,
    ttl: u64,
    now: u64,
) -> (Seq<UserRowV>, Result<Seq<char>, ApiError>) {
    if exists|i: int| 0 <= i < rows.len() && #[trigger] rows[i].email == email {
        (rows, Err(ApiError::DuplicateEmail))
    } else {
        match spec_parse_role(role_s) {
            Err(e) => (rows, Err(e)),
            Ok(role) => if !policy_ok(pass) {
                (rows, Err(ApiError::Policy))
            } else {
                let row = UserRowV {
                    user_id: next_id,
                    email,
                    password: spec_hash(pass, salt),
                    role,
                };
                match key {
                    None => (rows.push(row), Err(ApiError::Signing)),
                    Some(k) => (
                        rows.push(row),
                        Ok(spec_token(k, next_id, role, now, (now + ttl) as u64)),
                    ),
                }
            },
        }
    }
}

/// Registers a user: rejects a duplicate email before anything else, then
/// an unrecognized role, then a weak password — each before any row is
/// written — and otherwise inserts the row with the hashed password and
/// returns a token for the new identity.
pub fn register_user_op(
    table: &mut UsersTable,
    input: &RegisterUser,
    salt: u64,
    cfg: &TokenConfig,
    now: u64,
) -> (r: Result<String, ApiError>)
    requires
        old(table).wf(),
        old(table).next_id < u64::MAX,
        now + cfg.ttl_seconds <= u64::MAX,
    ensures
        final(table).wf(),
        final(table).next_id >= old(table).next_id,
        ({
            let (rows, res) = spec_register_user_op(
                old(table).rows_view(),
                old(table).next_id,
                input.email@,
                input.role@,
                input.password@,
                salt,
                cfg.key,
                cfg.ttl_seconds,
                now,
            );
            &&& final(table).rows_view() == rows
            &&& final(table).next_id == old(table).next_id + rows.len() - old(
                table,
            ).rows_view().len()
            &&& match r {
                Ok(t) => res == Ok::<Seq<char>, ApiError>(t@),
                Err(e) => res == Err::<Seq<char>, ApiError>(e),
            }
        }),
{
    if table.find_by_email(input.email.as_str()).is_some() {
        return Err(ApiError::DuplicateEmail);
    }
    let role = match parse_role(input.role.as_str()) {
        Err(e) => {
            return Err(e);
        },
        Ok(role) => role,
    };
    if let Err(e) = check_password_strength(input.password.as_str()) {
        return Err(e);
    }
    let password = match hash_password(input.password.as_str(), salt) {
        Ok(h) => h,
        Err(e) => {
            return Err(e);
        },
    };
    let user_id = table.next_id;
    let row = UserRow { user_id, email: input.email.clone(), password, role };
    let ghost old_view = table.rows_view();
    table.rows.push(row);
    table.next_id = user_id + 1;
    proof {
        assert(table.rows_view() =~= old_view.push(
            UserRowV {
                user_id,
                email: input.email@,
                password: spec_hash(input.password@, salt),
                role,
            },
        ));
    }
    create_token(cfg, user_id, role, now)
}

/// Registering an email a second time fails with the duplicate-email error
/// and writes no second row: whenever a first registration inserted a row
/// for an email, a later attempt with the same email — whatever its other
/// inputs, and whatever else was registered in between — leaves the table
/// unchanged.
pub proof fn lemma_second_registration_rejected(
    rows: Seq<UserRowV>,
    next_id: u64,
    email: Seq<char>,
    role_s: Seq<char>,
    pass: Seq<char>,
    salt: u64,
    key: Option<u64>,
    ttl: u64,
    now: u64,
    later: Seq<UserRowV>,
    next_id2: u64,
    role_s2: Seq<char>,
    pass2: Seq<char>,
    salt2: u64,
    key2: Option<u64>,
    ttl2: u64,
    now2: u64,
)
    requires
        spec_register_user_op(rows, next_id, email, role_s, pass, salt, key, ttl, now).0.len()
            > rows.len(),
        later.len() >= spec_register_user_op(
            rows,
            next_id,
            email,
            role_s,
            pass,
            salt,
            key,
            ttl,
            now,
        ).0.len(),
        forall|i: int|
            0 <= i < spec_register_user_op(
                rows,
                next_id,
                email,
                role_s,
                pass,
                salt,
                key,
                ttl,
                now,
            ).0.len() ==> #[trigger] later[i] == spec_register_user_op(
                rows,
                next_id,
                email,
                role_s,
                pass,
                salt,
                key,
                ttl,
                now,
            ).0[i],
    ensures
        spec_register_user_op(later, next_id2, email, role_s2, pass2, salt2, key2, ttl2, now2)
            == (later, Err::<Seq<char>, ApiError>(ApiError::DuplicateEmail)),
{
    let first = spec_register_user_op(rows, next_id, email, role_s, pass, salt, key, ttl, now).0;
    assert(first == rows.push(
        UserRowV { user_id: next_id, email, password: spec_hash(pass, salt), role:
            spec_parse_role(role_s)->Ok_0 },
    ));
    assert(first[rows.len() as int].email == email);
    assert(later[rows.len() as int].email == email);
}

} // verus!
