use api_core::errors::ApiError;
use api_core::models::{CategoryRow, RegisterCustomer, RegisterUser};
use api_core::products::ProductRow;
use api_core::roles::Role;
use api_core::schema::{MutationRoot, QueryRoot};
use api_core::store::UsersTable;
use api_core::token::{verify_token, TokenConfig};

fn cfg() -> TokenConfig {
    TokenConfig { key: Some(0x5eed), ttl_seconds: 3600 }
}

fn product(id: u64, cat: Option<i32>, sup: Option<i32>, base: Option<i32>) -> ProductRow {
    ProductRow {
        product_id: id,
        name: format!("product {}", id),
        category_id: cat,
        supplier_id: sup,
        base_product_id: base,
    }
}

#[test]
fn query_root_narrows_products_by_the_asymmetric_rule() {
    let q = QueryRoot;
    let rows = vec![
        product(1, Some(1), Some(2), None),
        product(2, Some(1), Some(3), None),
    ];
    let got = q.products_with_id(&rows, Some(1), None, None);
    assert_eq!(got.len(), 2);
    let got = q.products_with_id(&rows, Some(1), Some(2), None);
    assert_eq!(got.len(), 1);
    assert_eq!(got[0].product_id, 1);
    let got = q.products_with_name(&rows, "product 2");
    assert_eq!(got.len(), 1);
    assert_eq!(got[0].product_id, 2);
}

#[test]
fn query_root_passes_categories_through() {
    let q = QueryRoot;
    let rows = vec![CategoryRow {
        category_id: 5,
        name: "chairs".to_string(),
        parent_category_id: None,
    }];
    let got = q.categories(rows);
    assert_eq!(got.len(), 1);
    assert_eq!(got[0].category_id, 5);
}

#[test]
fn mutation_root_registers_logs_in_and_reads_the_profile() {
    let q = QueryRoot;
    let m = MutationRoot;
    let mut table = UsersTable::new();
    let input = RegisterUser {
        email: "a@shop.example".to_string(),
        password: "passw0rd".to_string(),
        role: "customer".to_string(),
    };
    let token = m.register_user(&mut table, &input, 11, &cfg(), 1000).unwrap();
    let claims = verify_token(&cfg(), &token, 1500).unwrap();
    assert_eq!(claims.role, Role::Customer);

    let login_token = m.login(&cfg(), Some(&table.rows[0]), "passw0rd", 2000).unwrap();
    let uid = q.get_user(&cfg(), &login_token, 2500).unwrap();
    assert_eq!(uid, table.rows[0].user_id);
    assert_eq!(q.customer_profile(&cfg(), &login_token, 2500), Ok(uid));
    assert_eq!(
        q.supplier_profile(&cfg(), &login_token, 2500),
        Err(ApiError::Forbidden)
    );

    let profile = RegisterCustomer {
        first_name: "Ada".to_string(),
        last_name: "Lovelace".to_string(),
    };
    let nc = m.register_customer(&cfg(), &login_token, 2500, &profile).unwrap();
    assert_eq!(nc.user_id, uid);
}
