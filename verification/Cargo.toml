[package]
name = "wql_process_monitor"
version = "0.1.0"
edition = "2021"
publish = false

[dependencies]
napi = "=3.16.1"
napi-derive = "=3.7.0"
windows = { version = "=0.52.0", features = ["Win32_Foundation", "Win32_Security", "Win32_System_Com", "Win32_System_Ole", "Win32_System_Rpc", "Win32_System_Threading", "Win32_System_Variant", "Win32_System_Wmi"] }
