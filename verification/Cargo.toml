[package]
name = "disease"
version = "0.1.0"
edition = "2021"
publish = false

[dependencies]
rand = "0.4"
time = "0.1"
iron = "0.6"
router = "0.6"
persistent = "0.4"
bodyparser = "0.8"
params = "0.8"
dotenv = "0.15"
serde = "1"
serde_derive = "1"
serde_json = "1"
diesel = { version = "1.4", features = ["postgres", "r2d2"] }
