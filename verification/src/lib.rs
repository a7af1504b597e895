//! The decisions and bookkeeping behind the JNI entry points of the lavaplayer
//! audio natives: result-code mapping, request building and decoder
//! lifecycles for the AAC, MP3, Opus, Vorbis and sample-rate converter
//! bindings. Everything here works on plain values; the native libraries are
//! driven by the JNI glue, which hands this library what they returned.
pub mod aac;
pub mod mp3;
pub mod opus;
pub mod vorbis;
pub mod samplerate;
