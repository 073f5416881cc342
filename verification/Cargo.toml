[package]
name = "ch_ewf"
version = "0.1.0"
edition = "2021"
publish = false

[dependencies]
md5 = "0.7"
uuid = { version = "0.8", features = ["v4"] }
base64 = "0.13"
rand = "0.8"
isocountry = "0.3"
chrono = "0.4"
chrono-tz = "0.6"
serde = { version = "1", features = ["derive"] }
xml_serde = "*"
reqwest = "0.11"
tokio = { version = "1", features = ["full"] }
log = "0.4"
pretty_env_logger = "0.4"
clap = "3"
config = "0.13"
tonic = "0.8"
prost-types = "0.11"
diesel = { version = "1.4", features = ["postgres", "r2d2", "uuidv07", "chrono"] }
r2d2 = "0.8"
tokio-diesel = "*"
diesel-derive-enum = { version = "1", features = ["postgres"] }
diesel_migrations = "1.4"
systemd-journal-logger = "*"
