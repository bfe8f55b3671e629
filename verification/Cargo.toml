[package]
name = "egui_chinese_font"
version = "0.1.0"
edition = "2021"
publish = false

[dependencies]
egui = "*"
