[package]
name = "feature_flag"
version = "0.1.0"
edition = "2021"
publish = false

[dependencies]
futures = "=0.3.34"
js-sys = "=0.3.104"
lenso = "=0.5.23"
lenso-app-plan = "=0.4.7"
lenso-auth-sdk = "=0.2.3"
lenso-capability-access-control = "=0.2.0"
lenso-capability-agent-tool-provider = "=0.3.0"
lenso-capability-auth = "=0.2.0"
lenso-capability-organization-membership = "=0.2.0"
lenso-capability-secrets = "=0.1.4"
lenso-kernel = "=0.3.12"
lenso-migration = "=0.1.0"
lenso-migration-d1 = "=0.1.0"
lenso-native-adapter = "=0.3.14"
lenso-postgres-kit = "=0.1.1"
lenso-workers-driver = "=0.1.2"
serde = { version = "=1.0.229", features = ["derive"] }
serde_json = "=1.0.154"
sha2 = "=0.10.9"
sqlx = { version = "=0.9.0", default-features = false, features = ["postgres", "runtime-tokio", "time", "uuid", "json"] }
thiserror = "=2.0.21"
time = { version = "=0.3.55", features = ["formatting", "wasm-bindgen"] }
uuid = { version = "=1.29.0", features = ["js", "v4"] }
wasm-bindgen = "=0.2.127"
wasm-bindgen-futures = "=0.4.77"
zeroize = "=1.9.1"
