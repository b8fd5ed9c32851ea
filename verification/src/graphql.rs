//! The GraphQL data shapes and their mock resolvers.
//!
//! The schema mirrors the REST model; the resolvers are mocks with no
//! store behind them, so their whole behaviour is a contract: the listing
//! queries answer with nothing, lookups find nothing, creation echoes the
//! input under a fresh identifier, and the update stream never yields.
//! The HTTP and schema plumbing of an actual GraphQL endpoint lives
//! outside the library.

use vstd::prelude::*;

verus! {

use crate::models::{CreateProduct, Product, UpdateProduct, User};
use crate::sys::{current_timestamp, new_uuid_string};

/// A user as the GraphQL schema exposes it.
#[derive(Clone, Debug)]
pub struct UserGraphQL {
    pub id: String,
    pub username: String,
    pub email: String,
    pub created_at: i64,
}

impl core::convert::From<User> for UserGraphQL {
    /// Drops the private fields of a user record.
    fn from(user: User) -> (r: UserGraphQL) {
        UserGraphQL {
            id: user.id,
            username: user.username,
            email: user.email,
            created_at: user.created_at,
        }
    }
}

impl vstd::std_specs::convert::FromSpecImpl<User> for UserGraphQL {
    open spec fn obeys_from_spec() -> bool {
        true
    }

    open spec fn from_spec(user: User) -> UserGraphQL {
        UserGraphQL {
            id: user.id,
            username: user.username,
            email: user.email,
            created_at: user.created_at,
        }
    }
}

/// A product as the GraphQL schema exposes it.
#[derive(Clone, Debug)]
pub struct ProductGraphQL {
    pub id: String,
    pub name: String,
    pub description: String,
    pub price: i64,
    pub inventory: i32,
    pub created_at: i64,
    pub updated_at: i64,
}

impl core::convert::From<Product> for ProductGraphQL {
    /// Carries every field of the record over.
    fn from(product: Product) -> (r: ProductGraphQL) {
        ProductGraphQL {
            id: product.id,
            name: product.name,
            description: product.description,
            price: product.price,
            inventory: product.inventory,
            created_at: product.created_at,
            updated_at: product.updated_at,
        }
    }
}

impl vstd::std_specs::convert::FromSpecImpl<Product> for ProductGraphQL {
    open spec fn obeys_from_spec() -> bool {
        true
    }

    open spec fn from_spec(product: Product) -> ProductGraphQL {
        ProductGraphQL {
            id: product.id,
            name: product.name,
            description: product.description,
            price: product.price,
            inventory: product.inventory,
            created_at: product.created_at,
            updated_at: product.updated_at,
        }
    }
}

/// The input object of the product-creation mutation.
#[derive(Clone, Debug)]
pub struct CreateProductInput {
    pub name: String,
    pub description: String,
    pub price: i64,
    pub inventory: i32,
}

impl core::convert::From<CreateProductInput> for CreateProduct {
    /// The GraphQL input and the REST body carry the same fields.
    fn from(input: CreateProductInput) -> (r: CreateProduct) {
        CreateProduct {
            name: input.name,
            description: input.description,
            price: input.price,
            inventory: input.inventory,
        }
    }
}

impl vstd::std_specs::convert::FromSpecImpl<CreateProductInput> for CreateProduct {
    open spec fn obeys_from_spec() -> bool {
        true
    }

    open spec fn from_spec(input: CreateProductInput) -> CreateProduct {
        CreateProduct {
            name: input.name,
            description: input.description,
            price: input.price,
            inventory: input.inventory,
        }
    }
}

/// The input object of the product-update mutation.
#[derive(Clone, Debug)]
pub struct UpdateProductInput {
    pub name: Option<String>,
    pub description: Option<String>,
    pub price: Option<i64>,
    pub inventory: Option<i32>,
}

impl core::convert::From<UpdateProductInput> for UpdateProduct {
    /// The GraphQL input and the REST body carry the same fields.
    fn from(input: UpdateProductInput) -> (r: UpdateProduct) {
        UpdateProduct {
            name: input.name,
            description: input.description,
            price: input.price,
            inventory: input.inventory,
        }
    }
}

impl vstd::std_specs::convert::FromSpecImpl<UpdateProductInput> for UpdateProduct {
    open spec fn obeys_from_spec() -> bool {
        true
    }

    open spec fn from_spec(input: UpdateProductInput) -> UpdateProduct {
        UpdateProduct {
            name: input.name,
            description: input.description,
            price: input.price,
            inventory: input.inventory,
        }
    }
}

/// The query root.
pub struct Query;

impl Query {
    /// There is no store: the user listing is always empty.
    pub fn users(&self) -> (r: Vec<UserGraphQL>)
        ensures
            r@.len() == 0,
    {
        Vec::new()
    }

    /// There is no store: no user is ever found.
    pub fn user(&self, _id: &str) -> (r: Option<UserGraphQL>)
        ensures
            r is None,
    {
        None
    }

    /// There is no store: the product listing is always empty.
    pub fn products(&self) -> (r: Vec<ProductGraphQL>)
        ensures
            r@.len() == 0,
    {
        Vec::new()
    }

    /// There is no store: no product is ever found.
    pub fn product(&self, _id: &str) -> (r: Option<ProductGraphQL>)
        ensures
            r is None,
    {
        None
    }
}

/// The mutation root.
pub struct Mutation;

impl Mutation {
    /// Echoes the input as a created product under a fresh identifier,
    /// stamped with the current time; nothing is stored.
    pub fn create_product(&self, input: CreateProductInput) -> (p: ProductGraphQL)
        ensures
            p.name == input.name,
            p.description == input.description,
            p.price == input.price,
            p.inventory == input.inventory,
            p.id@.len() == 36,
    {
        let id = new_uuid_string();
        let created_at: i64 = current_timestamp();
        let updated_at: i64 = current_timestamp();
        ProductGraphQL {
            id,
            name: input.name,
            description: input.description,
            price: input.price,
            inventory: input.inventory,
            created_at,
            updated_at,
        }
    }

    /// There is no store: no product is ever found to update.
    pub fn update_product(&self, _id: &str, _input: UpdateProductInput) -> (r: Option<
        ProductGraphQL,
    >)
        ensures
            r is None,
    {
        None
    }

    /// Deletion of a mock product always reports success.
    pub fn delete_product(&self, _id: &str) -> (r: bool)
        ensures
            r == true,
    {
        true
    }
}

/// The subscription root.
pub struct Subscription;

impl Subscription {
    /// The update stream, as the sequence of events it will ever yield:
    /// there is no store, so it is empty.
    pub fn product_updates(&self) -> (r: Vec<ProductGraphQL>)
        ensures
            r@.len() == 0,
    {
        Vec::new()
    }
}

} // verus!
