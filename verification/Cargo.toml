[package]
name = "loctui"
version = "0.1.0"
edition = "2021"

[dependencies]
crossterm = "=0.27.0"
geo = "=0.28.0"
geojson = "=0.24.2"
proj = "=0.27.2"
ratatui = "=0.26.3"
