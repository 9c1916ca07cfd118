[package]
name = "symtool"
version = "0.1.0"
edition = "2021"
publish = false

[dependencies]
symtool-backend = "=0.3.0"
goblin = "=0.4.3"
regex = "=1.13.1"
hashbrown = "=0.17.1"
clap = "=2.34.0"
