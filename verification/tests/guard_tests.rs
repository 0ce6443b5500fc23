use api_core::errors::ApiError;
use api_core::guard::{authorize, guard_check, guard_of, Operation, RoleGuard};
use api_core::roles::Role;
use api_core::token::{create_token, TokenConfig};

fn cfg() -> TokenConfig {
    TokenConfig { key: Some(0x5eed), ttl_seconds: 3600 }
}

#[test]
fn unlisted_role_is_forbidden_before_any_effect() {
    let t = create_token(&cfg(), 8, Role::Supplier, 1000).unwrap();
    let customers_only = RoleGuard::new(true, false);
    let r = guard_check(&cfg(), &t, 2000, &customers_only);
    assert!(matches!(r, Err(ApiError::Forbidden)));
    // The same token passes a guard that lists its role.
    let suppliers_too = RoleGuard::new(true, true);
    assert!(guard_check(&cfg(), &t, 2000, &suppliers_too).is_ok());
}

#[test]
fn invalid_token_is_unauthenticated_not_forbidden() {
    let customers_only = RoleGuard::new(true, false);
    let r = guard_check(&cfg(), "nonsense", 2000, &customers_only);
    assert!(matches!(r, Err(ApiError::Unauthenticated)));
    let expired = create_token(&cfg(), 8, Role::Customer, 0).unwrap();
    let r = guard_check(&cfg(), &expired, 9999, &customers_only);
    assert!(matches!(r, Err(ApiError::Unauthenticated)));
}

#[test]
fn operations_carry_their_static_guards() {
    assert_eq!(guard_of(Operation::ProductsWithId), None);
    assert_eq!(guard_of(Operation::ProductsWithName), None);
    assert_eq!(guard_of(Operation::Categories), None);
    assert_eq!(guard_of(Operation::RegisterUser), None);
    assert_eq!(guard_of(Operation::Login), None);
    assert_eq!(guard_of(Operation::GetUser), Some(RoleGuard { customer: true, supplier: true }));
    assert_eq!(
        guard_of(Operation::CustomerProfile),
        Some(RoleGuard { customer: true, supplier: false })
    );
    assert_eq!(
        guard_of(Operation::SupplierProfile),
        Some(RoleGuard { customer: false, supplier: true })
    );
    assert_eq!(
        guard_of(Operation::RegisterCustomer),
        Some(RoleGuard { customer: true, supplier: false })
    );
    assert_eq!(
        guard_of(Operation::RegisterSupplier),
        Some(RoleGuard { customer: false, supplier: true })
    );
}

#[test]
fn exactly_two_role_strings_are_recognized() {
    assert_eq!(api_core::roles::parse_role("customer"), Ok(Role::Customer));
    assert_eq!(api_core::roles::parse_role("supplier"), Ok(Role::Supplier));
    assert_eq!(api_core::roles::parse_role("admin"), Err(ApiError::InvalidRole));
    assert_eq!(api_core::roles::parse_role("Customer"), Err(ApiError::InvalidRole));
    assert_eq!(api_core::roles::parse_role(""), Err(ApiError::InvalidRole));
    assert_eq!(api_core::roles::parse_role(Role::Customer.name()), Ok(Role::Customer));
    assert_eq!(api_core::roles::parse_role(Role::Supplier.name()), Ok(Role::Supplier));
}

#[test]
fn public_operations_need_no_token() {
    assert!(matches!(authorize(&cfg(), Operation::ProductsWithId, None, 0), Ok(None)));
    assert!(matches!(authorize(&cfg(), Operation::Categories, None, 0), Ok(None)));
}

#[test]
fn guarded_operations_reject_a_missing_token() {
    let r = authorize(&cfg(), Operation::GetUser, None, 0);
    assert!(matches!(r, Err(ApiError::Unauthenticated)));
}

#[test]
fn guarded_operations_check_the_callers_role() {
    let supplier = create_token(&cfg(), 8, Role::Supplier, 1000).unwrap();
    let r = authorize(&cfg(), Operation::CustomerProfile, Some(&supplier), 2000);
    assert!(matches!(r, Err(ApiError::Forbidden)));
    let r = authorize(&cfg(), Operation::SupplierProfile, Some(&supplier), 2000);
    assert!(r.is_ok());
    let r = authorize(&cfg(), Operation::GetUser, Some(&supplier), 2000);
    assert!(r.is_ok());
}
