[package]
name = "minitel_app"
version = "0.1.0"
edition = "2021"
publish = false

[dependencies]
time = "0.3"
ratatui = { version = "*", features = ["widget-calendar"] }
tui-big-text = "*"
tokio = { version = "1", features = ["rt", "macros", "time"] }
log = "0.4"
strum = { version = "*", features = ["derive"] }
esp-idf-svc = "*"
esp-idf-hal = "*"
