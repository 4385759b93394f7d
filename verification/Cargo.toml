[package]
name = "bevy_newtonian2d"
version = "0.18.0"
edition = "2021"
publish = false

[dependencies]
bevy = { version = "0.18", default-features = false, features = ["std", "bevy_state"] }
derive_more = { version = "2", features = ["add", "add_assign", "deref", "deref_mut"] }
serde = { version = "1", features = ["derive"] }
