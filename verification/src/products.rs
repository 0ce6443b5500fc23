//! The product catalog reads: the filter an id query narrows the store
//! with, and the name query's substring match.
//!
//! The id query's combination rule is asymmetric and preserved exactly:
//! when exactly one of the three filters is present the query matches on
//! that field alone; any other combination, the all-absent one included,
//! matches all three fields at once, an absent filter comparing as null.

use vstd::prelude::*;

verus! {

/// A stored product row. The three classifying fields are nullable.
#[derive(Debug, PartialEq, Eq)]
pub struct ProductRow {
    pub product_id: u64,
    pub name: String,
    pub category_id: Option<i32>,
    pub supplier_id: Option<i32>,
    pub base_product_id: Option<i32>,
}

impl Clone for ProductRow {
    fn clone(&self) -> (r: Self)
        ensures
            r == *self,
    {
        ProductRow {
            product_id: self.product_id,
            name: self.name.clone(),
            category_id: self.category_id,
            supplier_id: self.supplier_id,
            base_product_id: self.base_product_id,
        }
    }
}

/// The filter an id query narrows the store with: a single field, or a
/// conjunction over all three.
#[derive(Clone, Copy, Debug, PartialEq, Eq)]
pub enum ProductFilter {
    Category(i32),
    Supplier(i32),
    BaseProduct(i32),
    Combined { category_id: Option<i32>, supplier_id: Option<i32>, base_product_id: Option<i32> },
}

/// The filter chosen for a combination of optional inputs: exactly one
/// present filters on that field alone; anything else filters on all three
/// fields at once.
pub open spec fn spec_product_filter(
    category_id: Option<i32>,
    supplier_id: Option<i32>,
    base_product_id: Option<i32>,
) -> ProductFilter {
    match (category_id, supplier_id, base_product_id) {
        (Some(c), None, None) => ProductFilter::Category(c),
        (None, Some(s), None) => ProductFilter::Supplier(s),
        (None, None, Some(b)) => ProductFilter::BaseProduct(b),
        _ => ProductFilter::Combined { category_id, supplier_id, base_product_id },
    }
}

/// Chooses the filter for a combination of optional inputs.
pub fn product_filter(
    category_id: Option<i32>,
    supplier_id: Option<i32>,
    base_product_id: Option<i32>,
) -> (f: ProductFilter)
    ensures
        f == spec_product_filter(category_id, supplier_id, base_product_id),
{
    match (category_id, supplier_id, base_product_id) {
        (Some(c), None, None) => ProductFilter::Category(c),
        (None, Some(s), None) => ProductFilter::Supplier(s),
        (None, None, Some(b)) => ProductFilter::BaseProduct(b),
        _ => ProductFilter::Combined { category_id, supplier_id, base_product_id },
    }
}

/// Whether a row satisfies a filter. In the combined form an absent input
/// compares as null: it matches exactly the rows whose field is null.
pub open spec fn product_matches(f: ProductFilter, p: ProductRow) -> bool {
    match f {
        ProductFilter::Category(c) => p.category_id == Some(c),
        ProductFilter::Supplier(s) => p.supplier_id == Some(s),
        ProductFilter::BaseProduct(b) => p.base_product_id == Some(b),
        ProductFilter::Combined { category_id, supplier_id, base_product_id } => {
            &&& p.category_id == category_id
            &&& p.supplier_id == supplier_id
            &&& p.base_product_id == base_product_id
        },
    }
}

/// Whether two optional integers are equal.
fn opt_i32_eq(a: Option<i32>, b: Option<i32>) -> (r: bool)
    ensures
        r == (a == b),
{
    match (a, b) {
        (Some(x), Some(y)) => x == y,
        (None, None) => true,
        _ => false,
    }
}

/// Whether a row satisfies a filter.
pub fn matches_filter(f: &ProductFilter, p: &ProductRow) -> (r: bool)
    ensures
        r == product_matches(*f, *p),
{
    match f {
        ProductFilter::Category(c) => opt_i32_eq(p.category_id, Some(*c)),
        ProductFilter::Supplier(s) => opt_i32_eq(p.supplier_id, Some(*s)),
        ProductFilter::BaseProduct(b) => opt_i32_eq(p.base_product_id, Some(*b)),
        ProductFilter::Combined { category_id, supplier_id, base_product_id } => {
            opt_i32_eq(p.category_id, *category_id) && opt_i32_eq(p.supplier_id, *supplier_id)
                && opt_i32_eq(p.base_product_id, *base_product_id)
        },
    }
}

/// The rows of `s` that satisfy `f`, in their stored order.
pub open spec fn spec_filtered(f: ProductFilter, s: Seq<ProductRow>) -> Seq<ProductRow>
    decreases s.len(),
{
    if s.len() == 0 {
        Seq::empty()
    } else if product_matches(f, s.last()) {
        spec_filtered(f, s.drop_last()).push(s.last())
    } else {
        spec_filtered(f, s.drop_last())
    }
}

/// Keeps the rows that satisfy the filter, in their stored order.
pub fn filter_products(f: &ProductFilter, rows: &Vec<ProductRow>) -> (out: Vec<ProductRow>)
    ensures
        out@ == spec_filtered(*f, rows@),
{
    let mut out: Vec<ProductRow> = Vec::new();
    let mut i: usize = 0;
    proof {
        assert(rows@.take(0) =~= Seq::<ProductRow>::empty());
    }
    while i < rows.len()
        invariant
            i <= rows@.len(),
            out@ == spec_filtered(*f, rows@.take(i as int)),
        decreases rows@.len() - i,
    {
        proof {
            assert(rows@.take(i + 1).drop_last() =~= rows@.take(i as int));
            assert(rows@.take(i + 1).last() == rows@[i as int]);
        }
        if matches_filter(f, &rows[i]) {
            out.push(rows[i].clone());
        }
        i = i + 1;
    }
    proof {
        assert(rows@.take(rows@.len() as int) =~= rows@);
    }
    out
}

/// Whether `needle` occurs as a contiguous run of characters in `hay`.
pub open spec fn name_contains(hay: Seq<char>, needle: Seq<char>) -> bool {
    exists|i: int|
        0 <= i && i + needle.len() <= hay.len() && #[trigger] hay.subrange(i, i + needle.len())
            == needle
}

/// Whether `needle` occurs in `hay` starting at character `at`.
fn match_at(hay: &str, needle: &str, at: usize, hay_len: usize, needle_len: usize) -> (r: bool)
    requires
        hay_len == hay@.len(),
        needle_len == needle@.len(),
        at + needle_len <= hay_len,
    ensures
        r == (hay@.subrange(at as int, at as int + needle@.len() as int) == needle@),
{
    let mut j: usize = 0;
    while j < needle_len
        invariant
            j <= needle_len,
            hay_len == hay@.len(),
            needle_len == needle@.len(),
            at + needle_len <= hay_len,
            forall|t: int| 0 <= t < j ==> hay@[at + t] == needle@[t],
        decreases needle_len - j,
    {
        if hay.get_char(at + j) != needle.get_char(j) {
            proof {
                assert(hay@.subrange(at as int, at as int + needle@.len() as int)[j as int]
                    != needle@[j as int]);
            }
            return false;
        }
        j = j + 1;
    }
    proof {
        assert(hay@.subrange(at as int, at as int + needle@.len() as int) =~= needle@);
    }
    true
}

/// Whether `needle` occurs as a substring of `hay`.
pub fn contains_chars(hay: &str, needle: &str) -> (r: bool)
    ensures
        r == name_contains(hay@, needle@),
{
    let hay_len = hay.unicode_len();
    let needle_len = needle.unicode_len();
    if needle_len > hay_len {
        return false;
    }
    if needle_len == 0 {
        proof {
            assert(hay@.subrange(0, 0 + needle@.len() as int) =~= needle@);
        }
        return true;
    }
    let mut i: usize = 0;
    while i <= hay_len - needle_len
        invariant
            1 <= needle_len <= hay_len,
            hay_len == hay@.len(),
            needle_len == needle@.len(),
            i <= hay_len - needle_len + 1,
            forall|t: int|
                0 <= t < i ==> #[trigger] hay@.subrange(t, t + needle@.len() as int) != needle@,
        decreases hay_len - needle_len + 1 - i,
    {
        if match_at(hay, needle, i, hay_len, needle_len) {
            return true;
        }
        i = i + 1;
    }
    false
}

/// The rows whose name contains `needle`, in their stored order.
pub open spec fn spec_filtered_by_name(needle: Seq<char>, s: Seq<ProductRow>) -> Seq<ProductRow>
    decreases s.len(),
{
    if s.len() == 0 {
        Seq::empty()
    } else if name_contains(s.last().name@, needle) {
        spec_filtered_by_name(needle, s.drop_last()).push(s.last())
    } else {
        spec_filtered_by_name(needle, s.drop_last())
    }
}

/// Keeps the rows whose name contains `needle`, in their stored order.
pub fn filter_products_by_name(needle: &str, rows: &Vec<ProductRow>) -> (out: Vec<ProductRow>)
    ensures
        out@ == spec_filtered_by_name(needle@, rows@),
{
    let mut out: Vec<ProductRow> = Vec::new();
    let mut i: usize = 0;
    proof {
        assert(rows@.take(0) =~= Seq::<ProductRow>::empty());
    }
    while i < rows.len()
        invariant
            i <= rows@.len(),
            out@ == spec_filtered_by_name(needle@, rows@.take(i as int)),
        decreases rows@.len() - i,
    {
        proof {
            assert(rows@.take(i + 1).drop_last() =~= rows@.take(i as int));
            assert(rows@.take(i + 1).last() == rows@[i as int]);
        }
        if contains_chars(rows[i].name.as_str(), needle) {
            out.push(rows[i].clone());
        }
        i = i + 1;
    }
    proof {
        assert(rows@.take(rows@.len() as int) =~= rows@);
    }
    out
}

} // verus!
