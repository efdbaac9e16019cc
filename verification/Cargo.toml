[package]
name = "oa_notifier"
version = "1.5.4"
edition = "2021"
publish = false

[dependencies]
scraper = { version = "=0.16.0", features = ["deterministic"] }
reqwest = { version = "=0.11.27", features = ["blocking"] }
fltk = "=1.5.23"
fltk-table = "=0.3.5"
webbrowser = "=1.2.6"
single-instance = "=0.3.3"
timer = "=0.2.0"
chrono = "=0.4.45"
notify-rust = "=4.18.2"
tray-icon = "=0.26.1"
