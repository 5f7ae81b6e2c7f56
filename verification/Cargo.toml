[package]
name = "team_graph"
version = "0.1.0"
edition = "2021"
publish = false

[dependencies]
juniper = { version = "=0.14.2", default-features = false }
serde_json = "=1.0.154"
diesel = { version = "=1.4.8", features = ["postgres"] }
dotenv = "=0.15.0"
actix-web = { version = "=2.0.0", default-features = false }
actix-rt = "=1.1.1"
async-std = { version = "=1.13.2", default-features = false, features = ["std"] }
futures = { version = "=0.3.34", default-features = false }
chrono = "=0.4.19"
