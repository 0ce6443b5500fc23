//! Core logic of a GraphQL shop backend: token issuance and verification,
//! password hashing and policy, role-based guards, and the validation and
//! filtering rules of the query and mutation resolvers.
//!
//! The transport layer, the relational store and the cache client are
//! external collaborators: every function here works on plain values that
//! such a collaborator hands in or takes back.

pub mod digest;
pub mod errors;
pub mod guard;
pub mod hex;
pub mod models;
pub mod password;
pub mod products;
pub mod resolvers;
pub mod roles;
pub mod schema;
pub mod store;
pub mod text;
pub mod token;
