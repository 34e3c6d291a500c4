[package]
name = "marathon_cloud"
version = "0.1.0"
edition = "2021"
publish = false

[dependencies]
async_zip = { version = "*", features = ["tokio", "deflate"] }
clap = { version = "*", features = ["derive", "env"] }
futures = "*"
globset = "*"
md-5 = "*"
num_cpus = "*"
reqwest = { version = "*", default-features = false, features = ["json"] }
serde = { version = "*", features = ["derive"] }
serde_json = "*"
serde_yaml = "*"
shellexpand = "*"
time = { version = "*", features = ["parsing"] }
tokio = { version = "*", features = ["full"] }
url = "*"
walkdir = "*"
