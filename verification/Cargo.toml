[package]
name = "blog_platform"
version = "0.1.0"
edition = "2021"
publish = false

[dependencies]
jsonwebtoken = { version = "10", features = ["rust_crypto"] }
serde = { version = "1", features = ["derive"] }
serde_json = "1"
chrono = "0.4"
uuid = { version = "1", features = ["v7"] }
tokio = { version = "1", features = ["sync", "rt-multi-thread", "macros"] }
argon2 = { version = "0.5", features = ["std"] }
reqwest = { version = "0.12", default-features = false, features = ["json"] }
clap = { version = "4", features = ["derive"] }
rpassword = "7"
thiserror = "2"
anyhow = "1"
async-trait = "0.1"
serde_yml = "*"
tracing = "0.1"
tracing-subscriber = "0.3"
actix-web = { version = "4", default-features = false, features = ["macros"] }
actix-cors = "0.7"
actix-web-httpauth = "0.8"
tracing-actix-web = "0.7"
sqlx = { version = "0.8", default-features = false, features = ["postgres", "runtime-tokio", "uuid", "chrono", "derive"] }
