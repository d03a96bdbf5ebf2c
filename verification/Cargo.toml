[package]
name = "task_executor"
version = "0.1.0"
edition = "2021"
publish = false

[dependencies]
exit-future = "=0.2.0"
futures = "=0.3.34"
slog = { version = "=2.8.2", features = ["dynamic-keys"] }
tokio = { version = "=1.54.1", features = ["rt-multi-thread"] }
