[package]
name = "autograder"
version = "0.1.0"
edition = "2021"
publish = false

[dependencies]
actix = "=0.13.5"
actix-http = { version = "=3.19.0", features = ["ws"] }
actix-web = { version = "=4.18.1", default-features = false, features = ["macros", "ws"] }
actix-web-actors = "=4.3.1"
anyhow = "=1.0.104"
chrono = "=0.4.45"
diff = "=0.1.13"
hex = "=0.4.3"
lazy_static = "=1.5.1"
log = "=0.4.34"
pretty_env_logger = "=0.5.0"
serde = { version = "=1.0.229", features = ["derive"] }
sha2 = "=0.11.1"
simd-json = "=0.18.1"
structopt = "=0.3.26"
tempfile = "=3.27.0"
