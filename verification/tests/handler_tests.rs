use loadbench::auth::validate_jwt;
use loadbench::error::AppError;
use loadbench::graphql::{
    CreateProductInput, Mutation, ProductGraphQL, Query, Subscription, UpdateProductInput,
    UserGraphQL,
};
use loadbench::handlers::{
    check_credentials, create_product, delete_product, get_product, get_products, get_user,
    get_users, handle_shopify_webhook, health_check, login, register, update_product,
};
use loadbench::models::{
    CreateProduct, CreateUser, LoginRequest, Product, UpdateProduct, User, UserResponse,
};

const TEST_SECRET: &str = "an-injected-test-signing-key";

#[test]
fn health_reports_ok_under_the_framework_name() {
    let h = health_check("axum");
    assert_eq!(h.status, "ok");
    assert_eq!(h.framework, "axum");
}

#[test]
fn only_the_fixed_mock_credentials_pass() {
    let good = LoginRequest {
        email: "test@example.com".to_string(),
        password: "password".to_string(),
    };
    let bad_password = LoginRequest {
        email: "test@example.com".to_string(),
        password: "wrong".to_string(),
    };
    let bad_email = LoginRequest {
        email: "other@example.com".to_string(),
        password: "password".to_string(),
    };
    assert!(check_credentials(&good));
    assert!(!check_credentials(&bad_password));
    assert!(!check_credentials(&bad_email));
}

#[test]
fn login_issues_a_token_for_the_mock_user() {
    let req = LoginRequest {
        email: "test@example.com".to_string(),
        password: "password".to_string(),
    };
    let resp = login(&req, TEST_SECRET).unwrap();
    assert_eq!(resp.user.username, "testuser");
    assert_eq!(resp.user.email, "test@example.com");
    assert_eq!(resp.user.id.len(), 36);
    let claims = validate_jwt(&resp.token, TEST_SECRET).unwrap();
    assert_eq!(claims.sub, resp.user.id);
    assert_eq!(claims.username, "testuser");
    assert_eq!(claims.email, "test@example.com");
}

#[test]
fn login_rejects_wrong_credentials() {
    let req = LoginRequest {
        email: "test@example.com".to_string(),
        password: "nope".to_string(),
    };
    let r = login(&req, TEST_SECRET);
    assert!(matches!(r, Err(AppError::Authentication(_))));
}

#[test]
fn register_echoes_the_user_under_a_fresh_id() {
    let r = register(CreateUser {
        username: "alice".to_string(),
        email: "alice@example.com".to_string(),
        password: "s3cret".to_string(),
    });
    assert_eq!(r.username, "alice");
    assert_eq!(r.email, "alice@example.com");
    assert_eq!(r.id.len(), 36);
}

#[test]
fn lookups_find_nothing_in_the_mock_store() {
    assert!(get_users().is_empty());
    assert!(get_products().is_empty());
    assert!(matches!(get_user("any"), Err(AppError::NotFound(_))));
    assert!(matches!(get_product("any"), Err(AppError::NotFound(_))));
    let update = UpdateProduct { name: None, description: None, price: None, inventory: None };
    assert!(matches!(update_product("any", update), Err(AppError::NotFound(_))));
    assert!(delete_product("any"));
    assert!(handle_shopify_webhook("{}"));
}

#[test]
fn created_products_echo_their_input() {
    let p = create_product(CreateProduct {
        name: "Test Product".to_string(),
        description: "A test product for benchmarking".to_string(),
        price: 1999,
        inventory: 100,
    });
    assert_eq!(p.name, "Test Product");
    assert_eq!(p.description, "A test product for benchmarking");
    assert_eq!(p.price, 1999);
    assert_eq!(p.inventory, 100);
    assert_eq!(p.id.len(), 36);
}

#[test]
fn error_classes_have_fixed_messages() {
    assert_eq!(AppError::Authentication(String::new()).describe(), "Authentication error");
    assert_eq!(AppError::NotFound(String::new()).describe(), "Not found");
    assert_eq!(AppError::Validation(String::new()).describe(), "Validation error");
    assert_eq!(AppError::Internal(String::new()).describe(), "Internal server error");
}

#[test]
fn graphql_queries_answer_with_mock_data() {
    let q = Query;
    assert!(q.users().is_empty());
    assert!(q.user("any").is_none());
    assert!(q.products().is_empty());
    assert!(q.product("any").is_none());
}

#[test]
fn graphql_mutations_echo_and_acknowledge() {
    let m = Mutation;
    let p = m.create_product(CreateProductInput {
        name: "Widget".to_string(),
        description: "A widget".to_string(),
        price: 500,
        inventory: 3,
    });
    assert_eq!(p.name, "Widget");
    assert_eq!(p.price, 500);
    assert_eq!(p.id.len(), 36);
    let update = UpdateProductInput { name: None, description: None, price: None, inventory: None };
    assert!(m.update_product("any", update).is_none());
    assert!(m.delete_product("any"));
    let s = Subscription;
    assert!(s.product_updates().is_empty());
}

#[test]
fn conversions_carry_every_shared_field() {
    let user = User {
        id: "u-1".to_string(),
        username: "bob".to_string(),
        email: "bob@example.com".to_string(),
        password_hash: "hash".to_string(),
        created_at: 10,
        updated_at: 20,
    };
    let resp = UserResponse::from(user.clone());
    assert_eq!(resp.id, "u-1");
    assert_eq!(resp.username, "bob");
    assert_eq!(resp.email, "bob@example.com");
    assert_eq!(resp.created_at, 10);

    let gql = UserGraphQL::from(user);
    assert_eq!(gql.id, "u-1");
    assert_eq!(gql.created_at, 10);

    let product = Product {
        id: "p-1".to_string(),
        name: "Widget".to_string(),
        description: "A widget".to_string(),
        price: 500,
        inventory: 3,
        created_at: 1,
        updated_at: 2,
    };
    let pg = ProductGraphQL::from(product);
    assert_eq!(pg.id, "p-1");
    assert_eq!(pg.name, "Widget");
    assert_eq!(pg.price, 500);
    assert_eq!(pg.inventory, 3);

    let cp = CreateProduct::from(CreateProductInput {
        name: "Widget".to_string(),
        description: "A widget".to_string(),
        price: 500,
        inventory: 3,
    });
    assert_eq!(cp.name, "Widget");
    assert_eq!(cp.inventory, 3);

    let up = UpdateProduct::from(UpdateProductInput {
        name: Some("New".to_string()),
        description: None,
        price: Some(600),
        inventory: None,
    });
    assert_eq!(up.name.as_deref(), Some("New"));
    assert_eq!(up.price, Some(600));
    assert!(up.description.is_none());
}
