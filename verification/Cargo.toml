[package]
name = "nib"
version = "0.1.0"
edition = "2021"
publish = false

[dependencies]
ashpd = "=0.13.13"
futures-util = "=0.3.34"
gio = "=0.22.10"
glib = "=0.22.10"
gstreamer = "=0.25.4"
gstreamer-app = "=0.25.2"
gtk4 = { version = "=0.11.5", features = ["v4_12"] }
kstring = "=2.0.2"
ksni = { version = "=0.3.7", features = ["blocking"] }
libadwaita = { version = "=0.9.2", features = ["v1_5"] }
serde = { version = "=1.0.229", features = ["derive"] }
thiserror = "=2.0.21"
tokio = { version = "=1.54.1", features = ["full"] }
tracing = "=0.1.44"
tracing-subscriber = "=0.3.23"
zbus = "=5.19.0"
