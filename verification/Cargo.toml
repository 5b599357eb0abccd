[package]
name = "sv2_bitcoin_core"
version = "0.1.0"
edition = "2021"
publish = false

[dependencies]
roles_logic_sv2 = "=3.0.0"
# roles_logic_sv2 3.0.0 builds only with this release of its framing_sv2 dependency.
framing_sv2 = "=5.0.0"
capnp = "=0.27.3"
capnp-rpc = "=0.27.3"
tokio = { version = "=1.54.1", features = ["rt", "net", "sync", "macros", "signal", "rt-multi-thread"] }
tokio-util = { version = "=0.7.20", features = ["compat"] }
tracing = "=0.1.44"
