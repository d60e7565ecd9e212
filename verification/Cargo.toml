[package]
name = "dynamic_workspaces"
version = "0.1.0"
edition = "2021"
publish = false
