[package]
name = "move_assembler"
version = "0.1.0"
edition = "2021"
publish = false

[dependencies]
clap = { version = "4", features = ["derive"] }
move-core-types = "=0.0.3"
regex = "1"
serde = { version = "1", features = ["derive"] }
serde_json = "1"
