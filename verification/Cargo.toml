[package]
name = "cdrive_manager"
version = "0.1.0"
edition = "2021"
publish = false

[dependencies]
blake3 = "1"
walkdir = "2"
crossbeam-channel = "0.5"
rayon = "1"
num_cpus = "1"
dirs = "5"
rusqlite = { version = "0.31", features = ["bundled"] }
reqwest = { version = "0.12", default-features = false, features = ["blocking", "json", "rustls-tls"] }
serde = { version = "1", features = ["derive"] }
serde_json = "1"
anyhow = "1"
winapi = { version = "0.3", features = ["winnt", "fileapi", "winioctl", "winbase", "handleapi", "ioapiset", "securitybaseapi", "processthreadsapi", "winreg", "minwindef", "errhandlingapi"] }
