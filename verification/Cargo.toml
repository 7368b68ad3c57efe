[package]
name = "g2h"
version = "0.1.0"
edition = "2021"
publish = false

[dependencies]
proc-macro2 = "1"
axum = "0.8"
http = "1"
tonic = "0.13"
tonic-build = "0.13"
prost = "0.13"
prost-types = "0.13"
prost-build = "0.13"
tokio = { version = "1", features = ["macros", "rt-multi-thread"] }
tower = { version = "0.5", features = ["util"] }
serde = { version = "1", features = ["derive"] }
serde_json = "1"
thiserror = "2"
cargo_metadata = "0.19"

[dev-dependencies]
heck = "0.5"
