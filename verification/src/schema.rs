//! The resolver roots: the read operations under [`QueryRoot`] and the
//! write operations under [`MutationRoot`], each method the decision half
//! of one schema operation. The transport layer routes a named operation to
//! the method; the store's reads and writes happen outside and hand rows in
//! or take validated inserts back.

use crate::errors::ApiError;
use crate::guard::Operation;
use crate::models::{
    CategoryRow, NewCustomer, NewSupplier, RegisterCustomer, RegisterSupplier, RegisterUser,
    UserRow,
};
use crate::products::{
    filter_products, filter_products_by_name, product_filter, spec_filtered,
    spec_filtered_by_name, spec_product_filter, ProductRow,
};
use crate::resolvers::{
    login_op, profile_query, register_customer_begin, register_supplier_begin, spec_login,
    spec_profile_query,
};
use crate::store::{register_user_op, spec_register_user_op, UsersTable};
use crate::token::TokenConfig;
use vstd::prelude::*;

verus! {

/// The root of the read operations.
pub struct QueryRoot;

/// The root of the write operations.
pub struct MutationRoot;

impl QueryRoot {
    /// The id query: narrows the rows by the filter the input combination
    /// chooses — one field when exactly one input is present, all three
    /// fields otherwise.
    pub fn products_with_id(
        &self,
        rows: &Vec<ProductRow>,
        category_id: Option<i32>,
        supplier_id: Option<i32>,
        base_product_id: Option<i32>,
    ) -> (out: Vec<ProductRow>)
        ensures
            out@ == spec_filtered(
                spec_product_filter(category_id, supplier_id, base_product_id),
                rows@,
            ),
    {
        let f = product_filter(category_id, supplier_id, base_product_id);
        filter_products(&f, rows)
    }

    /// The name query: keeps the rows whose name contains the input.
    pub fn products_with_name(&self, rows: &Vec<ProductRow>, name: &str) -> (out: Vec<ProductRow>)
        ensures
            out@ == spec_filtered_by_name(name@, rows@),
    {
        filter_products_by_name(name, rows)
    }

    /// The category listing: every row, unchanged.
    pub fn categories(&self, rows: Vec<CategoryRow>) -> (out: Vec<CategoryRow>)
        ensures
            out == rows,
    {
        rows
    }

    /// The user read, open to both roles: yields the numeric id the row
    /// lookup is keyed by.
    pub fn get_user(&self, cfg: &TokenConfig, token: &str, now: u64) -> (r: Result<u64, ApiError>)
        ensures
            match r {
                Ok(v) => spec_profile_query(cfg.key, Operation::GetUser, token@, now) == Ok::<
                    int,
                    ApiError,
                >(v as int),
                Err(e) => spec_profile_query(cfg.key, Operation::GetUser, token@, now) == Err::<
                    int,
                    ApiError,
                >(e),
            },
    {
        profile_query(cfg, Operation::GetUser, token, now)
    }

    /// The customer profile read, guarded to customers.
    pub fn customer_profile(&self, cfg: &TokenConfig, token: &str, now: u64) -> (r: Result<
        u64,
        ApiError,
    >)
        ensures
            match r {
                Ok(v) => spec_profile_query(cfg.key, Operation::CustomerProfile, token@, now)
                    == Ok::<int, ApiError>(v as int),
                Err(e) => spec_profile_query(cfg.key, Operation::CustomerProfile, token@, now)
                    == Err::<int, ApiError>(e),
            },
    {
        profile_query(cfg, Operation::CustomerProfile, token, now)
    }

    /// The supplier profile read, guarded to suppliers.
    pub fn supplier_profile(&self, cfg: &TokenConfig, token: &str, now: u64) -> (r: Result<
        u64,
        ApiError,
    >)
        ensures
            match r {
                Ok(v) => spec_profile_query(cfg.key, Operation::SupplierProfile, token@, now)
                    == Ok::<int, ApiError>(v as int),
                Err(e) => spec_profile_query(cfg.key, Operation::SupplierProfile, token@, now)
                    == Err::<int, ApiError>(e),
            },
    {
        profile_query(cfg, Operation::SupplierProfile, token, now)
    }
}

impl MutationRoot {
    /// Registration: the duplicate check, the role check, the policy check,
    /// the hash, the insert and the token, in the order the table states.
    pub fn register_user(
        &self,
        table: &mut UsersTable,
        input: &RegisterUser,
        salt: u64,
        cfg: &TokenConfig,
        now: u64,
    ) -> (r: Result<String, ApiError>)
        requires
            old(table).wf(),
            old(table).next_id < u64::MAX,
            now + cfg.ttl_seconds <= u64::MAX,
        ensures
            final(table).wf(),
            ({
                let (rows, res) = spec_register_user_op(
                    old(table).rows_view(),
                    old(table).next_id,
                    input.email@,
                    input.role@,
                    input.password@,
                    salt,
                    cfg.key,
                    cfg.ttl_seconds,
                    now,
                );
                &&& final(table).rows_view() == rows
                &&& match r {
                    Ok(t) => res == Ok::<Seq<char>, ApiError>(t@),
                    Err(e) => res == Err::<Seq<char>, ApiError>(e),
                }
            }),
    {
        register_user_op(table, input, salt, cfg, now)
    }

    /// Customer-profile registration, guarded to customers and keyed by the
    /// caller's verified identity.
    pub fn register_customer(
        &self,
        cfg: &TokenConfig,
        token: &str,
        now: u64,
        input: &RegisterCustomer,
    ) -> (r: Result<NewCustomer, ApiError>)
        ensures
            match r {
                Ok(nc) => spec_profile_query(cfg.key, Operation::RegisterCustomer, token@, now)
                    == Ok::<int, ApiError>(nc.user_id as int) && nc.first_name@
                    == input.first_name@ && nc.last_name@ == input.last_name@,
                Err(e) => spec_profile_query(cfg.key, Operation::RegisterCustomer, token@, now)
                    == Err::<int, ApiError>(e),
            },
    {
        register_customer_begin(cfg, token, now, input)
    }

    /// Supplier-profile registration, guarded to suppliers and keyed by the
    /// caller's verified identity.
    pub fn register_supplier(
        &self,
        cfg: &TokenConfig,
        token: &str,
        now: u64,
        input: &RegisterSupplier,
    ) -> (r: Result<NewSupplier, ApiError>)
        ensures
            match r {
                Ok(ns) => spec_profile_query(cfg.key, Operation::RegisterSupplier, token@, now)
                    == Ok::<int, ApiError>(ns.user_id as int) && ns.contact_phone@
                    == input.contact_phone@,
                Err(e) => spec_profile_query(cfg.key, Operation::RegisterSupplier, token@, now)
                    == Err::<int, ApiError>(e),
            },
    {
        register_supplier_begin(cfg, token, now, input)
    }

    /// Login against the credential row fetched for the caller's email.
    pub fn login(
        &self,
        cfg: &TokenConfig,
        user: Option<&UserRow>,
        password: &str,
        now: u64,
    ) -> (r: Result<String, ApiError>)
        requires
            now + cfg.ttl_seconds <= u64::MAX,
        ensures
            ({
                let spec_user = match user {
                    None => None,
                    Some(u) => Some(u@),
                };
                match r {
                    Ok(t) => spec_login(cfg.key, cfg.ttl_seconds, spec_user, password@, now)
                        == Ok::<Seq<char>, ApiError>(t@),
                    Err(e) => spec_login(cfg.key, cfg.ttl_seconds, spec_user, password@, now)
                        == Err::<Seq<char>, ApiError>(e),
                }
            }),
    {
        login_op(cfg, user, password, now)
    }
}

} // verus!
