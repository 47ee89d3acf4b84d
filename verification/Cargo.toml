[package]
name = "live_counter"
version = "0.1.0"
edition = "2021"
publish = false

[dependencies]
anyhow = "=1.0.104"
axum = { version = "=0.6.20", features = ["ws"] }
axum-extra = { version = "=0.4.2", features = ["spa"] }
clap = { version = "=3.2.25", features = ["derive"] }
console_error_panic_hook = "=0.1.7"
futures = "=0.3.34"
gloo-console = "=0.2.3"
gloo-net = "=0.2.6"
js-sys = "=0.3.106"
log = "=0.4.34"
serde = { version = "=1.0.229", features = ["derive"] }
serde_json = "=1.0.154"
tokio = { version = "=1.54.1", features = ["full"] }
tower = "=0.4.13"
tower-http = { version = "=0.3.5", features = ["trace"] }
tracing-subscriber = { version = "=0.3.23", features = ["env-filter"] }
wasm-bindgen-futures = "=0.4.79"
wasm-logger = "=0.2.0"
yew = { version = "=0.20.0", features = ["csr"] }
yew-router = "=0.17.0"
yew-websocket = "=1.0.1"
