[package]
name = "sprite_player"
version = "0.1.0"
edition = "2021"
publish = false

[dependencies]
console_error_panic_hook = "*"
futures = "*"
serde = { version = "*", features = ["derive"] }
serde-wasm-bindgen = "*"
wasm-bindgen = "*"
wasm-bindgen-futures = "*"
web-sys = { version = "*", features = ["CanvasRenderingContext2d", "Document", "Element", "HtmlCanvasElement", "HtmlImageElement", "Response", "Window", "console"] }
