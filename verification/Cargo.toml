[package]
name = "castpay_paymaster"
version = "0.1.0"
edition = "2021"
publish = false

[dependencies]
alloy-primitives = "=0.7.6"
alloy-sol-types = "=0.7.6"
stylus-sdk = "=0.6.1"
# The crates below are named only to hold them at the versions that
# stylus-sdk 0.6.1 builds with: later releases of ruint reject its storage
# code at compile time, and later releases of the sol! macro crates emit
# code that alloy-sol-types 0.7.6 does not take.
alloy-sol-macro = "=0.7.6"
alloy-sol-macro-expander = "=0.7.6"
alloy-sol-macro-input = "=0.7.6"
ruint = "=1.12.3"
syn-solidity = "=0.7.6"
