[package]
name = "supermusr-pipeline"
version = "0.1.0"
edition = "2021"
publish = false

[dependencies]
chrono = "0.4"
hdf5 = "0.8"
rdkafka = "0.36"
ratatui = "0.26"
tokio = { version = "1", features = ["macros", "rt-multi-thread", "time"] }
clap = { version = "4", features = ["derive", "env"] }
tracing = "0.1"
tracing-subscriber = "0.3"
anyhow = "1"
thiserror = "1"
strum = { version = "0.26", features = ["derive"] }
ndarray = "0.15"
rand = "0.8"
