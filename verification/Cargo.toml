[package]
name = "bundler"
version = "0.1.0"
edition = "2021"
publish = false

[dependencies]
ocaml-interop = { version = "=0.8.8", features = ["without-ocamlopt"] }
ocaml-sys = { version = "=0.22.3", features = ["without-ocamlopt"] }
