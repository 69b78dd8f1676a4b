[package]
name = "ai_deno"
version = "0.1.0"
edition = "2021"
publish = false

[dependencies]
url = "=2.5.8"
deno_semver = "=0.10.1"
dashmap = "=6.2.1"
deno_ast = { version = "=0.53.3", features = ["cjs", "transpiling"] }
wildcard = "=0.3.0"
deno_package_json = "=0.13.0"
serde = { version = "=1.0.229", features = ["derive"] }
serde_json = "=1.0.154"
flate2 = "=1.1.10"
tar = "=0.4.46"
reqwest = { version = "=0.12.28", default-features = false }
tokio = { version = "=1.54.1", features = ["rt", "time", "fs"] }
futures = "=0.3.34"

[dev-dependencies]
regex = "=1.13.1"
