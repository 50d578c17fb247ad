[package]
name = "orm_lib"
version = "0.1.0"
edition = "2021"
publish = false

[dependencies]
bigdecimal = "0.4"
chrono = "0.4"
diesel = { version = "2", default-features = false, features = ["postgres", "chrono", "numeric"] }
dotenv = "0.15"
