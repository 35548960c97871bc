[package]
name = "nestjs_trpc"
version = "0.1.0"
edition = "2021"
publish = false

[dependencies]
globset = "=0.4.20"
pathdiff = "=0.2.3"
similar = "=3.2.0"
swc_common = "=26.0.0"
swc_ecma_ast = "=29.0.2"
swc_ecma_parser = "=46.0.0"
walkdir = "=2.5.0"
serde = { version = "=1.0.229", features = ["derive"] }
serde_json = "=1.0.151"
clap = { version = "=4.6.7", features = ["derive"] }
console = "=0.16.6"
indicatif = "=0.18.6"
crossbeam-channel = "=0.5.17"
ctrlc = "=3.5.2"
notify = "=8.2.0"
notify-debouncer-mini = "=0.7.0"
miette = "=7.6.0"
thiserror = "=2.0.21"
tracing = "=0.1.44"
tracing-subscriber = "=0.3.23"
chrono = "=0.4.45"
