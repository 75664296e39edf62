//! Request and response shapes of the API's endpoints, as plain data.

pub mod allframe;
pub mod metrics;
pub mod orders;
pub mod products;
pub mod subscribe;
pub mod users;
