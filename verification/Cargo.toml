[package]
name = "tokio_with_wasm"
version = "0.1.0"
edition = "2021"
publish = false

[dependencies]
wasm-bindgen = "0.2"
wasm-bindgen-futures = "0.4"
js-sys = "0.3"
tokio = { version = "1", default-features = false, features = ["rt", "sync", "macros", "io-util", "time"] }
hashbrown = "0.15"
syn = { version = "2", features = ["full"] }
quote = "1"
chrono = "0.4"
web-sys = { version = "0.3", features = ["Blob", "BlobPropertyBag", "DedicatedWorkerGlobalScope", "ErrorEvent", "Event", "EventTarget", "File", "FileSystemCreateWritableOptions", "FileSystemDirectoryHandle", "FileSystemFileHandle", "FileSystemGetDirectoryOptions", "FileSystemGetFileOptions", "FileSystemHandle", "FileSystemHandleKind", "FileSystemRemoveOptions", "FileSystemWritableFileStream", "MessageEvent", "Performance", "StorageManager", "Url", "Worker", "WorkerGlobalScope", "WorkerOptions", "WorkerType", "WritableStream"] }
