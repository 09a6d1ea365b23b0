[package]
name = "twitch_bot"
version = "0.1.0"
edition = "2021"
publish = false

[dependencies]
anyhow = "1"
rand = "0.8"
rodio = "*"
serde = { version = "1", features = ["derive"] }
serde_yml = "*"
souvlaki = "*"
toml = "*"
twitcheventsub = "*"
url = "2"
