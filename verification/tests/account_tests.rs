use api_core::errors::ApiError;
use api_core::guard::Operation;
use api_core::models::{RegisterCustomer, RegisterSupplier, RegisterUser, UserRow};
use api_core::resolvers::{
    login_op, profile_query, register_customer_begin, register_supplier_begin, row_or_not_found,
};
use api_core::roles::Role;
use api_core::store::{register_user_op, UsersTable};
use api_core::token::{create_token, verify_token, TokenConfig};

fn cfg() -> TokenConfig {
    TokenConfig { key: Some(0x5eed), ttl_seconds: 3600 }
}

fn registration(email: &str, password: &str, role: &str) -> RegisterUser {
    RegisterUser {
        email: email.to_string(),
        password: password.to_string(),
        role: role.to_string(),
    }
}

#[test]
fn registration_returns_a_token_for_the_new_identity() {
    let mut table = UsersTable::new();
    let input = registration("a@shop.example", "passw0rd", "customer");
    let token = register_user_op(&mut table, &input, 11, &cfg(), 1000).unwrap();
    assert_eq!(table.rows.len(), 1);
    assert_eq!(table.rows[0].email, "a@shop.example");
    assert_eq!(table.rows[0].role, Role::Customer);
    let claims = verify_token(&cfg(), &token, 2000).unwrap();
    assert_eq!(claims.role, Role::Customer);
}

#[test]
fn second_registration_of_an_email_fails_and_writes_no_row() {
    let mut table = UsersTable::new();
    let first = registration("a@shop.example", "passw0rd", "customer");
    register_user_op(&mut table, &first, 11, &cfg(), 1000).unwrap();
    let second = registration("a@shop.example", "0therpass", "supplier");
    let r = register_user_op(&mut table, &second, 12, &cfg(), 1001);
    assert_eq!(r, Err(ApiError::DuplicateEmail));
    assert_eq!(table.rows.len(), 1);
}

#[test]
fn weak_password_is_rejected_before_any_row_is_written() {
    let mut table = UsersTable::new();
    let input = registration("a@shop.example", "weak", "customer");
    let r = register_user_op(&mut table, &input, 11, &cfg(), 1000);
    assert_eq!(r, Err(ApiError::Policy));
    assert_eq!(table.rows.len(), 0);
}

#[test]
fn unrecognized_role_is_rejected() {
    let mut table = UsersTable::new();
    let input = registration("a@shop.example", "passw0rd", "admin");
    let r = register_user_op(&mut table, &input, 11, &cfg(), 1000);
    assert_eq!(r, Err(ApiError::InvalidRole));
    assert_eq!(table.rows.len(), 0);
}

#[test]
fn login_distinguishes_wrong_password_from_unreadable_hash() {
    let mut table = UsersTable::new();
    let input = registration("a@shop.example", "passw0rd", "customer");
    register_user_op(&mut table, &input, 11, &cfg(), 1000).unwrap();
    let row = &table.rows[0];

    let ok = login_op(&cfg(), Some(row), "passw0rd", 2000);
    assert!(ok.is_ok());
    let wrong = login_op(&cfg(), Some(row), "password", 2000);
    assert_eq!(wrong, Err(ApiError::WrongPassword));

    let corrupted = UserRow {
        user_id: row.user_id,
        email: row.email.clone(),
        password: "not a stored hash".to_string(),
        role: row.role,
    };
    let unreadable = login_op(&cfg(), Some(&corrupted), "passw0rd", 2000);
    assert_eq!(unreadable, Err(ApiError::UnreadableHash));
    assert_ne!(wrong, unreadable);
}

#[test]
fn login_reports_a_missing_account() {
    let r = login_op(&cfg(), None, "passw0rd", 2000);
    assert_eq!(r, Err(ApiError::NotFound));
}

#[test]
fn login_token_carries_the_accounts_identity() {
    let mut table = UsersTable::new();
    let input = registration("a@shop.example", "passw0rd", "supplier");
    register_user_op(&mut table, &input, 11, &cfg(), 1000).unwrap();
    let token = login_op(&cfg(), Some(&table.rows[0]), "passw0rd", 2000).unwrap();
    let claims = verify_token(&cfg(), &token, 2500).unwrap();
    assert_eq!(claims.role, Role::Supplier);
    assert_eq!(
        api_core::token::parse_user_id(&claims.user_id),
        Ok(table.rows[0].user_id)
    );
}

#[test]
fn profile_query_returns_the_callers_numeric_id() {
    let token = create_token(&cfg(), 42, Role::Customer, 1000).unwrap();
    let r = profile_query(&cfg(), Operation::GetUser, &token, 2000);
    assert_eq!(r, Ok(42));
    let r = profile_query(&cfg(), Operation::CustomerProfile, &token, 2000);
    assert_eq!(r, Ok(42));
    let r = profile_query(&cfg(), Operation::SupplierProfile, &token, 2000);
    assert_eq!(r, Err(ApiError::Forbidden));
    let r = profile_query(&cfg(), Operation::GetUser, "nonsense", 2000);
    assert_eq!(r, Err(ApiError::Unauthenticated));
}

#[test]
fn missing_profile_rows_become_not_found() {
    let row = UserRow {
        user_id: 42,
        email: "a@shop.example".to_string(),
        password: "h".to_string(),
        role: Role::Customer,
    };
    assert!(row_or_not_found(Some(&row)).is_ok());
    assert_eq!(row_or_not_found::<&UserRow>(None), Err(ApiError::NotFound));
}

#[test]
fn customer_registration_is_keyed_by_the_verified_identity() {
    let token = create_token(&cfg(), 42, Role::Customer, 1000).unwrap();
    let input = RegisterCustomer {
        first_name: "Ada".to_string(),
        last_name: "Lovelace".to_string(),
    };
    let nc = register_customer_begin(&cfg(), &token, 2000, &input).unwrap();
    assert_eq!(nc.user_id, 42);
    assert_eq!(nc.first_name, "Ada");
    assert_eq!(nc.last_name, "Lovelace");

    let supplier_token = create_token(&cfg(), 43, Role::Supplier, 1000).unwrap();
    let r = register_customer_begin(&cfg(), &supplier_token, 2000, &input);
    assert_eq!(r, Err(ApiError::Forbidden));
}

#[test]
fn supplier_registration_is_keyed_by_the_verified_identity() {
    let token = create_token(&cfg(), 43, Role::Supplier, 1000).unwrap();
    let input = RegisterSupplier { contact_phone: "555-0100".to_string() };
    let ns = register_supplier_begin(&cfg(), &token, 2000, &input).unwrap();
    assert_eq!(ns.user_id, 43);
    assert_eq!(ns.contact_phone, "555-0100");

    let customer_token = create_token(&cfg(), 42, Role::Customer, 1000).unwrap();
    let r = register_supplier_begin(&cfg(), &customer_token, 2000, &input);
    assert_eq!(r, Err(ApiError::Forbidden));
    let r = register_supplier_begin(&cfg(), "nonsense", 2000, &input);
    assert_eq!(r, Err(ApiError::Unauthenticated));
}

#[test]
fn registration_without_a_secret_reports_the_signing_failure() {
    let nokey = TokenConfig { key: None, ttl_seconds: 3600 };
    let mut table = UsersTable::new();
    let input = registration("a@shop.example", "passw0rd", "customer");
    let r = register_user_op(&mut table, &input, 11, &nokey, 1000);
    assert_eq!(r, Err(ApiError::Signing));
    // The row was already written when the token step failed: the token
    // comes after the insert.
    assert_eq!(table.rows.len(), 1);
}

#[test]
fn error_messages_match_the_operations_wording() {
    assert_eq!(ApiError::DuplicateEmail.message(), "User already exists");
    assert_eq!(ApiError::InvalidRole.message(), "Invalid role");
    assert_eq!(ApiError::WrongPassword.message(), "Invalid password");
    assert_eq!(
        ApiError::UnreadableHash.message(),
        "Password not readable, please reset password"
    );
}
