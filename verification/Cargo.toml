[package]
name = "gstplugins"
version = "0.1.0"
edition = "2021"
publish = false

[dependencies]
fragile = "2"
once_cell = "1"
glib = "0.18"
gstreamer = "0.21"
gstreamer-base = "0.21"
gstreamer-video = "0.21"
gtk4 = "0.7"
