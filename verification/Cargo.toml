[package]
name = "pane_windows"
version = "0.1.0"
edition = "2021"
publish = false

[dependencies]
anyhow = "=1.0.104"
# Named for its feature: the objc2 crates need a runtime for blocks off Apple platforms.
block2 = { version = "=0.6.2", features = ["gnustep-2-1"] }
instant = "=0.1.13"
log = "=0.4.35"
num-traits = "=0.2.19"
objc = "=0.2.7"
objc2 = { version = "=0.6.5", features = ["gnustep-2-1"] }
objc2-app-kit = "=0.3.2"
objc2-foundation = "=0.3.2"
pathfinder_geometry = "=0.5.1"
