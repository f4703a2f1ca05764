[package]
name = "ununi"
version = "0.5.0"
edition = "2021"
publish = false

[dependencies]
tantivy = { version = "=0.27.0", default-features = false, features = ["mmap", "lz4-compression"] }
xml = "=1.4.0"
toml = "=1.1.8"
zip = { version = "=9.1.0", default-features = false, features = ["deflate"] }
curl = { version = "=0.4.51", default-features = false }
winapi = { version = "=0.3.9", features = ["basetsd", "d2d1", "d2dbasetypes", "dcommon", "dwrite", "dxgiformat", "errhandlingapi", "guiddef", "libloaderapi", "minwindef", "ntdef", "shellscalingapi", "unknwnbase", "winbase", "windef", "windowsx", "winerror", "winnt", "winreg", "winuser"] }
