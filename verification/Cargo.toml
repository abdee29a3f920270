[package]
name = "picole_pixel"
version = "0.1.0"
edition = "2021"
publish = false

[dependencies]
chrono = "=0.4.45"
teloxide = { version = "=0.17.0", features = ["macros"] }
sqlx = { version = "=0.9.0", features = ["runtime-tokio", "sqlite"] }
tokio = { version = "=1.53.2", features = ["macros", "rt-multi-thread", "time"] }
# Not used directly: holds teloxide's transitive takecell dependency below
# 0.1.2, whose declared rust-version is newer than the toolchain building
# this crate.
takecell = "=0.1.1"
