[package]
name = "finam_bot"
version = "0.1.0"
edition = "2021"
publish = false

[dependencies]
tonic = { version = "=0.14.9", features = ["tls-native-roots", "tls-ring"] }
tonic-prost = "=0.14.9"
prost = "=0.14.4"
hyper = "=1.12.0"
tokio = { version = "=1.54.1", features = ["full"] }
teloxide = { version = "=0.17.0", features = ["macros"] }
takecell = ">=0.1.0, <0.1.2"
thiserror = "=2.0.21"
tracing = "=0.1.44"
tracing-subscriber = { version = "=0.3.23", features = ["env-filter"] }
