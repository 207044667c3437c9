[package]
name = "i2c-character-display"
version = "0.5.0"
edition = "2021"
publish = false

[dependencies]
bitfield = "*"
embedded-hal = "1"
ufmt = "0.2"
defmt = "*"

[dev-dependencies]
embedded-hal-mock = { version = "*", default-features = false, features = ["eh1"] }
