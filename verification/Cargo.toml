[package]
name = "policast"
version = "0.1.0"
edition = "2021"
publish = false

[dependencies]
regex = "1"
fraction = "0.15"
image = { version = "0.25", default-features = false, features = ["bmp"] }
egui = "0.29"
egui_extras = { version = "0.29", default-features = false }
serde = { version = "1", features = ["derive"] }
serde_json = "1"
serde_json_any_key = "2"
directories = "5"
local-ip-address = "0.6"
axum = { version = "0.7", default-features = false, features = ["tokio", "http1"] }
tokio = { version = "1", features = ["rt-multi-thread", "macros", "net", "sync"] }
tower-http = { version = "0.6", features = ["fs"] }
strum = "0.26"
strum_macros = "0.26"
replace_with = "0.1"
refbox = "0.4"
