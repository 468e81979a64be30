[package]
name = "kira"
version = "0.1.0"
edition = "2021"
publish = false

[dependencies]
ringbuf = "0.2"
symphonia = { version = "0.5", features = ["mp3", "ogg", "vorbis", "flac", "wav", "pcm"] }
