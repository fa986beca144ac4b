[package]
name = "av_decoders"
version = "0.1.0"
edition = "2021"
publish = false

[dependencies]
v_frame = { version = "=0.7.0", features = ["padding_api"] }
num-rational = { version = "=0.4.2", default-features = false, features = ["std"] }
thiserror = "=2.0.21"
y4m = "=0.8.0"
ffmpeg-the-third = "=6.0.0"
ffms2-sys = "=0.3.0"
vapoursynth = { version = "=0.4.0", features = ["vsscript-functions", "vapoursynth-functions", "vapoursynth-api-32", "vsscript-api-31"] }
