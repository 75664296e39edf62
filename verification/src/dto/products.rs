//! Product search shapes.

use vstd::prelude::*;

verus! {

/// A free-text product query.
#[derive(Debug)]
pub struct SearchProductsRequest {
    pub query: String,
}

/// One product of the catalog.
#[derive(Debug, Clone)]
pub struct Product {
    pub id: String,
    pub name: String,
}

/// The products a query matched, echoing the query.
#[derive(Debug)]
pub struct SearchProductsResponse {
    pub query: String,
    pub results: Vec<Product>,
}

} // verus!
