[package]
name = "add_noise"
version = "0.1.0"
edition = "2021"
publish = false

[dependencies]
rand = "=0.6.5"
rustc_apfloat = "=0.2.3+llvm-462a31f5a5ab"
const_soft_float = "*"
softfloat-wrapper = "*"
csv = "=1.4.0"
either = "=1.18.0"
clap = "=4.6.7"
