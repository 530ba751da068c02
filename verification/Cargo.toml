[package]
name = "ra4m1_hal"
version = "0.1.0"
edition = "2021"
publish = false

[dependencies]
circular-buffer = "*"
embedded-can = "*"
embedded-io = "*"
critical-section = "*"
cortex-m = "*"
ra4m1 = "*"
