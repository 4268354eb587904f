[package]
name = "swap_offer"
version = "0.1.0"
edition = "2021"
publish = false

[dependencies]
baid58 = "=0.4.4"
lightning = "=0.0.118"
rgb-std = "=0.10.9"
# Not used by name: strict_encoding 2.6, which rgb-std 0.10 builds on, asks
# for this crate as "2.0.1" and does not compile with its later 2.x releases.
strict_encoding_derive = "=2.0.1"
