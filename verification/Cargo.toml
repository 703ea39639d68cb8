[package]
name = "cedar_display"
version = "0.1.0"
edition = "2021"
publish = false

[dependencies]
axum = "=0.8.9"
display-interface-spi = "=0.5.0"
embedded-graphics = "=0.8.2"
linux-embedded-hal = "=0.5.0"
pico-args = "=0.5.0"
prost = "=0.13.5"
rppal = { version = "=0.22.1", features = ["embedded-hal"] }
serde = { version = "=1.0.229", features = ["derive"] }
serde_json = "=1.0.151"
simple-signal = "=1.1.1"
ssd1351 = "=0.5.0"
tokio = { version = "=1.53.2", features = ["macros", "rt-multi-thread", "time", "net"] }
tonic = "=0.12.3"
tower-http = { version = "=0.7.1", features = ["fs"] }
u8g2-fonts = "=0.8.0"
