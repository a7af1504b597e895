[package]
name = "lavaplayer_natives"
version = "0.1.0"
edition = "2021"
publish = false

[dependencies]
audiopus_sys = "*"
env_logger = "*"
fdk-aac-sys = "*"
jni = "0.19"
libsamplerate-sys = "*"
log = "0.4"
mpg123-sys = "*"
ogg-sys = "*"
vorbis-sys = "*"
