[package]
name = "fluent_gallery"
version = "0.1.0"
edition = "2021"
publish = false

[dependencies]
iced = { version = "0.13", default-features = false, features = ["advanced"] }
iced_aw = { version = "0.12", default-features = false, features = ["number_input", "typed_input"] }
num-traits = "0.2"
