[package]
name = "mail_enrich"
version = "0.1.0"
edition = "2021"
publish = false

[dependencies]
base64 = "=0.21.7"
clap = "=4.6.7"
comrak = { version = "=0.57.0", default-features = false }
imap = "=2.4.1"
mail-builder = "=0.2.5"
mail-parser = "=0.8.2"
native-tls = "=0.2.18"
