[package]
name = "smolbin"
version = "0.1.0"
edition = "2021"
publish = false

[dependencies]
chrono = "0.4"
rand = "0.9"
serde = { version = "1", features = ["derive"] }
leptos = { version = "0.8", features = ["ssr"] }
leptos_axum = "0.8"
leptos_meta = "0.8"
leptos_router = "0.8"
axum = "0.8"
sqlx = { version = "0.8", default-features = false, features = ["sqlite", "runtime-tokio"] }
tokio = { version = "1", features = ["full"] }
