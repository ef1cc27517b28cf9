[package]
name = "async_queues"
version = "0.1.0"
edition = "2021"
publish = false

[dependencies]
async-task = "4"
flume = "0.11"
futures-lite = "2"
