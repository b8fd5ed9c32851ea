[package]
name = "loadbench"
version = "0.1.0"
edition = "2021"
publish = false

[dependencies]
bcrypt = "=0.19.3"
jsonwebtoken = "=9.3.1"
uuid = { version = "=1.27.0", features = ["v4"] }
chrono = "=0.4.45"
serde = { version = "*", features = ["derive"] }
serde_json = "*"
clap = { version = "*", features = ["derive"] }
tokio = { version = "*", features = ["full"] }
reqwest = { version = "*", default-features = false, features = ["json"] }
futures = "*"
tabled = "*"
anyhow = "*"
thiserror = "*"
tracing = "*"
tracing-subscriber = { version = "*", features = ["env-filter"] }
axum = "*"
actix-web = "*"
actix-cors = "*"
async-graphql = "*"
async-graphql-axum = "*"
async-graphql-actix-web = "*"
tower = "*"
tower-http = { version = "*", features = ["cors", "trace"] }
