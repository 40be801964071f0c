[package]
name = "ios_event_loop"
version = "0.1.0"
edition = "2021"
publish = false

[dependencies]
core-foundation = "=0.9.4"
icrate = { version = "=0.0.4", features = ["Foundation", "Foundation_NSString", "Foundation_NSThread"] }
objc2 = "=0.4.1"
raw-window-handle = "=0.6.2"

[lints.rust]
unexpected_cfgs = { level = "warn", check-cfg = ['cfg(feature, values("rwh_05"))'] }
