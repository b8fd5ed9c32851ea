//! The shared data model of the two services.
//!
//! Identifiers are carried as their 36-character hyphenated text form and
//! times as Unix seconds, so every field is a plain value the contracts
//! can speak about.  The services are mocks: no record is ever persisted,
//! the model only shapes the request and response bodies the benchmark
//! exercises.

use vstd::prelude::*;

verus! {

/// A stored user record.
#[derive(Clone, Debug)]
pub struct User {
    pub id: String,
    pub username: String,
    pub email: String,
    pub password_hash: String,
    pub created_at: i64,
    pub updated_at: i64,
}

/// The body of a registration request.
#[derive(Clone, Debug)]
pub struct CreateUser {
    pub username: String,
    pub email: String,
    pub password: String,
}

/// The body of a login request.
#[derive(Clone, Debug)]
pub struct LoginRequest {
    pub email: String,
    pub password: String,
}

/// What a successful login returns: the signed token and the public view
/// of the user.
#[derive(Clone, Debug)]
pub struct LoginResponse {
    pub token: String,
    pub user: UserResponse,
}

/// The public view of a user: everything but the password hash and the
/// update time.
#[derive(Clone, Debug)]
pub struct UserResponse {
    pub id: String,
    pub username: String,
    pub email: String,
    pub created_at: i64,
}

impl core::convert::From<User> for UserResponse {
    /// Drops the private fields of a user record.
    fn from(user: User) -> (r: UserResponse) {
        UserResponse {
            id: user.id,
            username: user.username,
            email: user.email,
            created_at: user.created_at,
        }
    }
}

impl vstd::std_specs::convert::FromSpecImpl<User> for UserResponse {
    open spec fn obeys_from_spec() -> bool {
        true
    }

    open spec fn from_spec(user: User) -> UserResponse {
        UserResponse {
            id: user.id,
            username: user.username,
            email: user.email,
            created_at: user.created_at,
        }
    }
}

/// A stored product record.  The price is in cents.
#[derive(Clone, Debug)]
pub struct Product {
    pub id: String,
    pub name: String,
    pub description: String,
    pub price: i64,
    pub inventory: i32,
    pub created_at: i64,
    pub updated_at: i64,
}

/// The body of a product-creation request.
#[derive(Clone, Debug)]
pub struct CreateProduct {
    pub name: String,
    pub description: String,
    pub price: i64,
    pub inventory: i32,
}

/// The body of a product-update request; absent fields stay unchanged.
#[derive(Clone, Debug)]
pub struct UpdateProduct {
    pub name: Option<String>,
    pub description: Option<String>,
    pub price: Option<i64>,
    pub inventory: Option<i32>,
}

/// A recorded inbound webhook, its JSON payload carried as text.
#[derive(Clone, Debug)]
pub struct ShopifyWebhook {
    pub id: String,
    pub webhook_type: String,
    pub payload: String,
    pub processed: bool,
    pub created_at: i64,
}

} // verus!
