[package]
name = "twirc"
version = "0.1.0"
edition = "2021"
publish = false

[dependencies]
chrono = { version = "0.4", features = ["serde"] }
clap = { version = "4", features = ["derive"] }
deadpool-postgres = "*"
duration-string = "*"
libmdbx = "*"
log = "0.4"
pretty_env_logger = "*"
serde = { version = "1", features = ["derive"] }
serde_json = "1"
tokio = { version = "1", features = ["macros", "rt-multi-thread", "signal", "sync", "time"] }
tokio-postgres = { version = "*", features = ["with-chrono-0_4"] }
twitch-irc = { version = "*", features = ["transport-ws-native-tls"] }
