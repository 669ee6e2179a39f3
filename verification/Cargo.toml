[package]
name = "sealing_jobs"
version = "0.1.0"
edition = "2021"
publish = false

[dependencies]
async-trait = "0.1"
base64 = "0.21"
bytes = "1"
cid = "0.11"
dotenv = "0.15"
encoding_rs = "0.8"
fvm_ipld_encoding = "*"
fvm_shared = "*"
hyper = "0.14"
mime = "0.3"
reqwest = { version = "0.11", default-features = false, features = ["json"] }
serde = { version = "1", features = ["derive"] }
serde_json = { version = "1", features = ["preserve_order"] }
serde_with = { version = "3", features = ["base64"] }
thiserror = "1"
tracing = "0.1"
unsigned-varint = "0.7"
url = { version = "2", features = ["serde"] }
uuid = { version = "1", features = ["v4", "serde"] }
