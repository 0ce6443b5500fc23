//! The plain-value shapes of the entities the resolvers read and write, and
//! of the operation inputs. The relational store owns persistence; these
//! types carry its rows and the callers' inputs through the core's logic.

use crate::roles::Role;
use vstd::prelude::*;

verus! {

/// A stored user row: unique email, stored password hash, role.
#[derive(Debug, PartialEq, Eq)]
pub struct UserRow {
    pub user_id: u64,
    pub email: String,
    pub password: String,
    pub role: Role,
}

/// The mathematical view of a user row.
pub struct UserRowV {
    pub user_id: u64,
    pub email: Seq<char>,
    pub password: Seq<char>,
    pub role: Role,
}

impl View for UserRow {
    type V = UserRowV;

    open spec fn view(&self) -> UserRowV {
        UserRowV {
            user_id: self.user_id,
            email: self.email@,
            password: self.password@,
            role: self.role,
        }
    }
}

impl Clone for UserRow {
    fn clone(&self) -> (r: Self)
        ensures
            r == *self,
    {
        UserRow {
            user_id: self.user_id,
            email: self.email.clone(),
            password: self.password.clone(),
            role: self.role,
        }
    }
}

/// A stored customer profile row.
#[derive(Debug, PartialEq, Eq)]
pub struct CustomerRow {
    pub customer_id: u64,
    pub user_id: u64,
    pub first_name: String,
    pub last_name: String,
}

/// A stored supplier profile row.
#[derive(Debug, PartialEq, Eq)]
pub struct SupplierRow {
    pub supplier_id: u64,
    pub user_id: u64,
    pub contact_phone: String,
}

/// A stored category row.
#[derive(Debug, PartialEq, Eq)]
pub struct CategoryRow {
    pub category_id: i32,
    pub name: String,
    pub parent_category_id: Option<i32>,
}

/// The registration input: email, plaintext password, role string.
#[derive(Debug)]
pub struct RegisterUser {
    pub email: String,
    pub password: String,
    pub role: String,
}

/// The login input: email and plaintext password.
#[derive(Debug)]
pub struct LoginUser {
    pub email: String,
    pub password: String,
}

/// The customer-profile registration input.
#[derive(Debug)]
pub struct RegisterCustomer {
    pub first_name: String,
    pub last_name: String,
}

/// The supplier-profile registration input.
#[derive(Debug)]
pub struct RegisterSupplier {
    pub contact_phone: String,
}

/// A validated customer-profile insert, keyed by the caller's identity.
#[derive(Debug, PartialEq, Eq)]
pub struct NewCustomer {
    pub user_id: u64,
    pub first_name: String,
    pub last_name: String,
}

/// A validated supplier-profile insert, keyed by the caller's identity.
#[derive(Debug, PartialEq, Eq)]
pub struct NewSupplier {
    pub user_id: u64,
    pub contact_phone: String,
}

} // verus!
