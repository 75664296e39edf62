//! The e-commerce gateway's request and response shapes.  The shipping
//! shapes are absent here: their weights and costs are floating-point, which
//! stays outside the verified library.

use vstd::prelude::*;

verus! {

/// A free-text product query.
#[derive(Debug)]
pub struct SearchProductsRequest {
    pub query: String,
}

/// One product of the catalog.
#[derive(Debug, Clone)]
pub struct Product {
    pub id: String,
    pub name: String,
}

/// The products a query matched, echoing the query.
#[derive(Debug)]
pub struct SearchProductsResponse {
    pub query: String,
    pub results: Vec<Product>,
}

/// A request to order a quantity of one product.
#[derive(Debug)]
pub struct CreateOrderRequest {
    pub product: String,
    pub quantity: u32,
}

/// A freshly created order.
#[derive(Debug)]
pub struct CreateOrderResponse {
    pub order_id: String,
    pub product: String,
    pub status: String,
}

/// A lookup by id, or a registration when no id is given.
#[derive(Debug)]
pub struct GetUserRequest {
    pub user_id: Option<String>,
}

/// One user record.
#[derive(Debug)]
pub struct UserResponse {
    pub id: String,
    pub name: String,
    pub email: String,
}

} // verus!
