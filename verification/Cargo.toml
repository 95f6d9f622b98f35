[package]
name = "darktide_discord"
version = "0.1.0"
edition = "2021"
publish = false

[dependencies]
chrono = "*"
discord_game_sdk = "*"
