//! The plain data the catalog's query surface and commands exchange with
//! the interface, and the one shared piece of query text: the product-group
//! expression.

use vstd::prelude::*;

verus! {

/// Where the application put its data, reported after startup.
#[derive(Debug, Clone)]
pub struct InitInfo {
    pub data_dir: String,
    pub images_dir: String,
    pub db_path: String,
    pub db_version: i64,
}

/// One brand row.
#[derive(Debug, Clone)]
pub struct Brand {
    pub id: i64,
    pub name: String,
}

/// One vehicle row.
#[derive(Debug, Clone)]
pub struct Vehicle {
    pub id: i64,
    pub name: String,
}

/// One row of a product search result.
#[derive(Debug, Clone)]
pub struct ProductListItem {
    pub id: i64,
    pub code: String,
    pub description: String,
    pub brand: String,
    pub vehicles: Option<String>,
}

/// Everything the interface shows about one product.
#[derive(Debug, Clone)]
pub struct ProductDetails {
    pub id: i64,
    pub code: String,
    pub description: String,
    pub brand: String,
    pub application: Option<String>,
    pub details: Option<String>,
    pub similar: Option<String>,
    pub images: Vec<String>,
}

/// The filters of a product search.
#[derive(Debug, Clone)]
pub struct SearchParams {
    pub brand_id: Option<i64>,
    pub group: Option<String>,
    pub make: Option<String>,
    pub vehicle_id: Option<i64>,
    pub code_query: Option<String>,
    pub limit: Option<i64>,
}

/// How many products carry a group, and how many distinct groups exist.
#[derive(Debug, Clone)]
pub struct GroupsStats {
    pub products_with_group: i64,
    pub distinct_groups: i64,
}

/// What a database export reports.
#[derive(Debug, Clone)]
pub struct ExportResult {
    pub ok: bool,
    pub output: String,
}

/// The branding assets after an update.
#[derive(Debug, Clone)]
pub struct BrandingResult {
    pub ok: bool,
    pub logo: Option<String>,
    pub background: Option<String>,
    pub header_logos: Option<Vec<String>>,
}

/// Credentials for publishing a manifest to the remote bucket.
#[derive(Debug, Clone)]
pub struct R2Creds {
    pub account_id: String,
    pub bucket: String,
    pub access_key_id: String,
    pub secret_access_key: String,
    pub endpoint: Option<String>,
    pub public_base_url: Option<String>,
}

/// The normalized product-group expression the queries share.
pub fn group_expr_sql() -> (r: &'static str)
    ensures
        r@ == "UPPER(TRIM(COALESCE(pgroup,'')))"@,
{
    "UPPER(TRIM(COALESCE(pgroup,'')))"
}

/// The group expression under an alias, as it stands in a select list.
pub fn group_expr_alias(alias: &str) -> (r: String)
    ensures
        r@ == "UPPER(TRIM(COALESCE(pgroup,'')))"@ + " AS "@ + alias@,
{
    let mut r = String::new();
    r.append(group_expr_sql());
    r.append(" AS ");
    r.append(alias);
    assert(r@ =~= "UPPER(TRIM(COALESCE(pgroup,'')))"@ + " AS "@ + alias@);
    r
}

} // verus!
