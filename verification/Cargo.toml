[package]
name = "azure_mgmt"
version = "0.1.0"
edition = "2021"
publish = false

[dependencies]
async-trait = "=0.1.92"
azure_core = "=0.1.1"
base64 = "=0.13.1"
bytes = "=1.12.1"
chrono = "=0.4.45"
config = { version = "=0.13.4", default-features = false, features = ["toml"] }
diesel = { version = "2", default-features = false, features = ["sqlite", "r2d2", "returning_clauses_for_sqlite_3_35"] }
env_logger = "=0.9.3"
http = "=0.2.12"
jwt = { version = "=0.16.0", features = ["openssl"] }
log = "=0.4.34"
oauth2 = "=4.4.2"
openssl = "=0.10.81"
reqwest = "=0.11.27"
route-recognizer = "=0.3.1"
serde = { version = "=1.0.229", features = ["derive"] }
serde_json = "=1.0.154"
serenity = "=0.10.10"
thiserror = "=1.0.69"
tokio = { version = "=1.54.1", features = ["full"] }
urlencoding = "=2.1.3"
uuid = { version = "=1.29.0", features = ["v4"] }
