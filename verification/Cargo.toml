[package]
name = "i18n_greeter"
version = "0.1.0"
edition = "2021"
publish = false

[dependencies]
anyhow = "1"
chrono = { version = "0.4", default-features = false, features = ["clock"] }
wasmtime = { version = "36", default-features = false, features = ["runtime", "cranelift", "component-model", "std"] }

[dev-dependencies]
wat = "1"
