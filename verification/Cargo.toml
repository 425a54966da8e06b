[package]
name = "todo_iced_sqlite"
version = "0.1.0"
edition = "2021"
publish = false

[dependencies]
rusqlite = "=0.41.1"
iced = { version = "=0.14.0", default-features = false, features = ["canvas", "tiny-skia", "x11", "thread-pool"] }
