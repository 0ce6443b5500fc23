use api_core::products::{
    contains_chars, filter_products, filter_products_by_name, product_filter, ProductFilter,
    ProductRow,
};

fn product(id: u64, name: &str, cat: Option<i32>, sup: Option<i32>, base: Option<i32>) -> ProductRow {
    ProductRow {
        product_id: id,
        name: name.to_string(),
        category_id: cat,
        supplier_id: sup,
        base_product_id: base,
    }
}

#[test]
fn exactly_one_filter_narrows_on_that_field_alone() {
    assert_eq!(product_filter(Some(1), None, None), ProductFilter::Category(1));
    assert_eq!(product_filter(None, Some(2), None), ProductFilter::Supplier(2));
    assert_eq!(product_filter(None, None, Some(3)), ProductFilter::BaseProduct(3));
}

#[test]
fn other_combinations_narrow_on_all_three_fields() {
    assert_eq!(
        product_filter(Some(1), Some(2), None),
        ProductFilter::Combined {
            category_id: Some(1),
            supplier_id: Some(2),
            base_product_id: None
        }
    );
    assert_eq!(
        product_filter(None, None, None),
        ProductFilter::Combined { category_id: None, supplier_id: None, base_product_id: None }
    );
    assert_eq!(
        product_filter(Some(1), Some(2), Some(3)),
        ProductFilter::Combined {
            category_id: Some(1),
            supplier_id: Some(2),
            base_product_id: Some(3)
        }
    );
}

#[test]
fn category_alone_returns_both_category_and_supplier_returns_one() {
    let rows = vec![
        product(1, "A", Some(1), Some(2), None),
        product(2, "B", Some(1), Some(3), None),
    ];
    let only_category = product_filter(Some(1), None, None);
    let got = filter_products(&only_category, &rows);
    assert_eq!(got.len(), 2);
    assert_eq!(got[0].product_id, 1);
    assert_eq!(got[1].product_id, 2);

    let category_and_supplier = product_filter(Some(1), Some(2), None);
    let got = filter_products(&category_and_supplier, &rows);
    assert_eq!(got.len(), 1);
    assert_eq!(got[0].product_id, 1);
}

#[test]
fn combined_filter_compares_absent_inputs_as_null() {
    let rows = vec![
        product(1, "A", Some(1), Some(2), None),
        product(2, "B", None, None, None),
    ];
    let all_absent = product_filter(None, None, None);
    let got = filter_products(&all_absent, &rows);
    assert_eq!(got.len(), 1);
    assert_eq!(got[0].product_id, 2);
}

#[test]
fn name_query_matches_substrings() {
    let rows = vec![
        product(1, "Red Chair", None, None, None),
        product(2, "Blue Table", None, None, None),
    ];
    let got = filter_products_by_name("d Ch", &rows);
    assert_eq!(got.len(), 1);
    assert_eq!(got[0].product_id, 1);
    let got = filter_products_by_name("", &rows);
    assert_eq!(got.len(), 2);
    let got = filter_products_by_name("Stool", &rows);
    assert_eq!(got.len(), 0);
}

#[test]
fn substring_search_is_exact() {
    assert!(contains_chars("Red Chair", "Chair"));
    assert!(contains_chars("Red Chair", "Red Chair"));
    assert!(contains_chars("Red Chair", ""));
    assert!(!contains_chars("Red Chair", "chair"));
    assert!(!contains_chars("Red", "Red Chair"));
}
