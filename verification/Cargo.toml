[package]
name = "esp_ll"
version = "0.1.0"
edition = "2021"
publish = false

[dependencies]
embedded-hal = "0.2"
nb = "1"
void = { version = "1", default-features = false }
ssd1306 = "0.7"
embedded-graphics = "0.7"
riscv-rt = "0.8"
panic-halt = "0.2"
esp32-hal = "0.3"
