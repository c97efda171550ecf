[package]
name = "todomvc"
version = "0.1.0"
edition = "2021"
publish = false

[dependencies]
ulid = "=3.0.0"
seed = { version = "=0.10.0", features = ["routing"] }
web-sys = { version = "0.3", features = ["Document", "Element", "HtmlCollection", "HtmlInputElement"] }
console_error_panic_hook = "0.1"
