[package]
name = "windows-tts"
version = "0.1.0"
edition = "2021"
publish = false

[dependencies]
clap = { version = "4", features = ["derive"] }
futures = "0.3"
windows = { version = "0.48", features = ["Foundation", "Media_Core", "Media_MediaProperties", "Media_Playback", "Media_SpeechSynthesis", "Media_Transcoding", "Storage", "Storage_Streams"] }
