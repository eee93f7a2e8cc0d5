[package]
name = "squish"
version = "0.1.0"
edition = "2021"
publish = false

[dependencies]
anyhow = "1"
image = { version = "0.25", default-features = false, features = ["jpeg", "png", "webp", "bmp", "tiff", "gif"] }
serde = { version = "1", features = ["derive"] }
webp = "0.3"
zip = { version = "2", default-features = false, features = ["deflate"] }
