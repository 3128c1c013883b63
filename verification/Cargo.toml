[package]
name = "lotr_mod_bot"
version = "0.1.0"
edition = "2021"
publish = false

[dependencies]
itertools = "0.9"
mysql_async = "*"
serenity = "0.10"
tokio = { version = "1", features = ["macros", "rt-multi-thread"] }
