//! Order creation shapes.

use vstd::prelude::*;

verus! {

/// A request to order a quantity of one product.
#[derive(Debug)]
pub struct CreateOrderRequest {
    pub product: String,
    pub quantity: u32,
}

/// A freshly created order.
#[derive(Debug)]
pub struct CreateOrderResponse {
    pub order_id: String,
    pub product: String,
    pub status: String,
}

} // verus!
