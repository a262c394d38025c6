[package]
name = "feed_poster"
version = "0.1.0"
edition = "2021"
publish = false

[dependencies]
chrono = "*"
rss = "*"
atom_syndication = "*"
reqwest = { version = "*", default-features = false }
tokio = { version = "*", features = ["macros", "rt"] }
egg-mode = "*"
lambda_runtime = "*"
aws_lambda_events = "*"
