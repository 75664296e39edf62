//! User lookup shapes.

use vstd::prelude::*;

verus! {

/// A lookup by id, or a registration when no id is given.
#[derive(Debug)]
pub struct GetUserRequest {
    pub user_id: Option<String>,
}

/// One user record.
#[derive(Debug)]
pub struct UserResponse {
    pub id: String,
    pub name: String,
    pub email: String,
}

} // verus!
