[package]
name = "garage_door_v2"
version = "0.1.0"
edition = "2021"
publish = false

[dependencies]
defmt = "=1.2.0"
embassy-executor = "=0.7.0"
embassy-net = { version = "=0.9.1", features = ["defmt", "dhcpv4", "medium-ethernet", "tcp", "udp"] }
embassy-time = { version = "=0.5.1", features = ["defmt"] }
esp-alloc = "=0.8.0"
esp-backtrace = { version = "=0.17.0", features = ["esp32c3", "panic-handler", "exception-handler", "defmt"] }
esp-bootloader-esp-idf = { version = "=0.2.0", features = ["esp32c3"] }
esp-hal = { version = "=1.0.0-rc.0", features = ["esp32c3", "unstable", "defmt"] }
esp-hal-embassy = { version = "=0.9.1", features = ["esp32c3", "defmt"] }
esp-println = { version = "=0.15.0", features = ["esp32c3", "defmt-espflash"] }
esp-wifi = { version = "=0.15.1", features = ["esp32c3", "wifi", "defmt"] }
mcutie = { version = "=0.4.0", features = ["defmt"] }
static_cell = "=2.1.1"
