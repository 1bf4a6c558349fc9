[package]
name = "compliance_pipeline"
version = "0.1.0"
edition = "2021"
publish = false

[dependencies]
rand = "0.9"
tui = "0.19"
crossterm = "0.25"
crossbeam-channel = "0.5"
ctrlc = "3"
clap = { version = "4", features = ["derive"] }
