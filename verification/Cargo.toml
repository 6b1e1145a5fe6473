[package]
name = "ohos_ability"
version = "0.1.0"
edition = "2021"
publish = false

[dependencies]
futures-channel = "=0.3.34"
log = "=0.4.35"
napi-ohos = { version = "=1.2.0", features = ["napi5"] }
napi-derive-ohos = "=1.2.0"
ohos-hilog-binding = "=0.2.5"
serde = { version = "=1.0.229", features = ["derive"] }
tokio = { version = "=1.54.1", features = ["time"] }
