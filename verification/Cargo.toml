[package]
name = "sprite_manager"
version = "0.1.0"
edition = "2021"
publish = false

[dependencies]
borsh = "=0.9.3"
# Not called by this crate. mpl-token-metadata 1.7.0 asks for any 1.x of it, and the later
# ones do not build with solana-program 1.14: this line holds it at one that does.
mpl-token-auth-rules = { version = "=1.2.0", features = ["no-entrypoint"] }
mpl-token-metadata = { version = "=1.7.0", features = ["no-entrypoint"] }
mpl-utils = "=0.0.6"
num-derive = "=0.3.3"
num-traits = "=0.2.19"
shank = "=0.0.11"
solana-program = "=1.14.29"
spl-associated-token-account = { version = "=1.1.3", features = ["no-entrypoint"] }
spl-token = { version = "=3.5.0", features = ["no-entrypoint"] }
thiserror = "=1.0.69"
