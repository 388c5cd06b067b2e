[package]
name = "clemitui"
version = "0.1.0"
edition = "2021"
publish = false

[dependencies]
colored = "=3.1.1"
serde_json = "=1.0.154"
termimad = "=0.35.5"
