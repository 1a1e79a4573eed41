[package]
name = "tictactoe_p2p"
version = "0.1.0"
edition = "2021"
publish = false

[dependencies]
serde_json = "*"
itertools = "*"
tokio = { version = "*", features = ["full"] }
libp2p = { version = "*", features = ["tokio", "tcp", "noise", "yamux", "mdns", "floodsub", "macros", "ed25519"] }
