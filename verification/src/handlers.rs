//! The shared request-handling rules of the two services.
//!
//! Both services expose the same HTTP contract; what differs is only the
//! framework that routes to these rules.  The handlers are mocks with no
//! store behind them, so each one's whole behaviour is its contract:
//! the health endpoint reports itself, login accepts exactly one fixed
//! credential pair, registration and product creation echo their input
//! under a fresh identifier, and every lookup finds nothing.  Reading
//! bodies off the wire and writing responses back happens outside the
//! library.

use vstd::prelude::*;

verus! {

use vstd::string::StringExecFns;
use crate::auth::{create_jwt, jwt_claims_of, Claims, TOKEN_LIFETIME_SECONDS};
use crate::error::{AppError, AppResult};
use crate::models::{
    CreateProduct,
    CreateUser,
    LoginRequest,
    LoginResponse,
    Product,
    UpdateProduct,
    UserResponse,
};
use crate::sys::{current_timestamp, new_uuid_string};

/// What the health endpoint reports: that the service is up, which
/// framework serves it, and when it answered.
#[derive(Clone, Debug)]
pub struct HealthStatus {
    pub status: String,
    pub framework: String,
    pub timestamp: i64,
}

/// The health endpoint's answer: always "ok", under the serving
/// framework's name, stamped with the current time.
pub fn health_check(framework: &str) -> (h: HealthStatus)
    ensures
        h.status@ == "ok"@,
        h.framework@ == framework@,
{
    HealthStatus {
        status: String::from_str("ok"),
        framework: String::from_str(framework),
        timestamp: current_timestamp(),
    }
}

/// The one credential pair the mock login accepts.
pub open spec fn credentials_valid(email: Seq<char>, password: Seq<char>) -> bool {
    email == "test@example.com"@ && password == "password"@
}

/// True exactly when the request carries the accepted mock credentials.
pub fn check_credentials(req: &LoginRequest) -> (b: bool)
    ensures
        b == credentials_valid(req.email@, req.password@),
{
    let email_ok = req.email == String::from_str("test@example.com");
    let password_ok = req.password == String::from_str("password");
    email_ok && password_ok
}

/// The login handler.  A request without the accepted credentials is an
/// authentication error; with them, a fresh user id is minted, claims for
/// the fixed mock user are issued, and on success the response carries a
/// token whose payload names exactly that user and expires one token
/// lifetime after issue.  Only the token encoder can still fail then.
pub fn login(req: &LoginRequest, secret: &str) -> (r: AppResult<LoginResponse>)
    ensures
        !credentials_valid(req.email@, req.password@) ==> (r matches Err(e) && e matches
            AppError::Authentication(_)),
        credentials_valid(req.email@, req.password@) ==> (r matches Ok(_) || (r matches Err(e)
            && e matches AppError::Jwt(_))),
        r matches Ok(resp) ==> credentials_valid(req.email@, req.password@)
            && resp.user.username@ == "testuser"@ && resp.user.email@ == req.email@
            && resp.user.id@.len() == 36 && jwt_claims_of(resp.token@).sub == resp.user.id@
            && jwt_claims_of(resp.token@).username == "testuser"@ && jwt_claims_of(
            resp.token@,
        ).email == req.email@ && jwt_claims_of(resp.token@).exp == jwt_claims_of(resp.token@).iat
            + TOKEN_LIFETIME_SECONDS,
{
    if !check_credentials(req) {
        return Err(AppError::Authentication(String::from_str("invalid credentials")));
    }
    let user_id = new_uuid_string();
    let claims = Claims::new(
        user_id.clone(),
        String::from_str("testuser"),
        req.email.clone(),
    );
    match create_jwt(&claims, secret) {
        Ok(token) => Ok(
            LoginResponse {
                token,
                user: UserResponse {
                    id: user_id,
                    username: String::from_str("testuser"),
                    email: req.email.clone(),
                    created_at: current_timestamp(),
                },
            },
        ),
        Err(e) => Err(e),
    }
}

/// The registration handler: echoes the new user under a fresh identifier,
/// stamped with the current time; nothing is stored.
pub fn register(req: CreateUser) -> (r: UserResponse)
    ensures
        r.username == req.username,
        r.email == req.email,
        r.id@.len() == 36,
{
    UserResponse {
        id: new_uuid_string(),
        username: req.username,
        email: req.email,
        created_at: current_timestamp(),
    }
}

/// There is no store: the user listing is always empty.
pub fn get_users() -> (r: Vec<UserResponse>)
    ensures
        r@.len() == 0,
{
    Vec::new()
}

/// There is no store: no user is ever found.
pub fn get_user(_id: &str) -> (r: AppResult<UserResponse>)
    ensures
        r matches Err(e) && e matches AppError::NotFound(_),
{
    Err(AppError::NotFound(String::from_str("user")))
}

/// There is no store: the product listing is always empty.
pub fn get_products() -> (r: Vec<Product>)
    ensures
        r@.len() == 0,
{
    Vec::new()
}

/// There is no store: no product is ever found.
pub fn get_product(_id: &str) -> (r: AppResult<Product>)
    ensures
        r matches Err(e) && e matches AppError::NotFound(_),
{
    Err(AppError::NotFound(String::from_str("product")))
}

/// The product-creation handler: echoes the product under a fresh
/// identifier, stamped with the current time; nothing is stored.
pub fn create_product(req: CreateProduct) -> (p: Product)
    ensures
        p.name == req.name,
        p.description == req.description,
        p.price == req.price,
        p.inventory == req.inventory,
        p.id@.len() == 36,
{
    let id = new_uuid_string();
    let created_at: i64 = current_timestamp();
    let updated_at: i64 = current_timestamp();
    Product {
        id,
        name: req.name,
        description: req.description,
        price: req.price,
        inventory: req.inventory,
        created_at,
        updated_at,
    }
}

/// There is no store: no product is ever found to update.
pub fn update_product(_id: &str, _req: UpdateProduct) -> (r: AppResult<Product>)
    ensures
        r matches Err(e) && e matches AppError::NotFound(_),
{
    Err(AppError::NotFound(String::from_str("product")))
}

/// Deletion of a mock product always reports success.
pub fn delete_product(_id: &str) -> (r: bool)
    ensures
        r == true,
{
    true
}

/// The webhook sink acknowledges every payload; nothing is processed.
pub fn handle_shopify_webhook(_payload: &str) -> (r: bool)
    ensures
        r == true,
{
    true
}

} // verus!
