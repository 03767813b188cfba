[package]
name = "quickwit_doc_mapping"
version = "0.1.0"
edition = "2021"
publish = false

[dependencies]
tantivy = "=0.19.2"
serde = { version = "=1.0.229", features = ["derive"] }
serde_json = "=1.0.154"
typetag = "=0.2.23"
