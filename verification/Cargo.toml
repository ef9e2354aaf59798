[package]
name = "boson-app"
version = "0.1.0"
edition = "2021"
publish = false

[dependencies]
serde_json = "=1.0.154"
leptos = "=0.8.23"
leptos_router = "=0.8.17"
leptos-use = "=0.16.3"
icondata = "=0.4.0"
icondata_core = "=0.1.0"
turf = "0.9"
axum = { version = "=0.8.9", default-features = false }
orbital-data = "=0.1.4"
orbital-macros = "=0.1.5"
orbital-motion = "=0.1.3"
