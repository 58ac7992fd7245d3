[package]
name = "excel_grid"
version = "0.1.0"
edition = "2021"
publish = false

[dependencies]
anyhow = "1"
calamine = "*"
chrono = "0.4"
lazy_static = "1"
rust_xlsxwriter = "*"
serde = { version = "1", features = ["derive"] }
