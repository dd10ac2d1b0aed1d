[package]
name = "yew-tou-rs"
version = "0.1.0"
edition = "2021"
publish = false

[dependencies]
gloo-storage = "0.3"
markdown = "1"
serde = { version = "1", features = ["derive"] }
web-sys = { version = "0.3", features = ["Document", "DomRect", "Element", "ScrollBehavior", "ScrollToOptions", "Window"] }
yew = { version = "0.21", features = ["csr"] }
