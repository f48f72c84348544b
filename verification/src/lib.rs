//! Core of a streaming music player: the decode/resample/buffer
//! pipeline, its seek/control protocol, the streaming source adapter,
//! the spectrum analysis engine, the output volume planning, the
//! playlist orchestrator, and the block cipher used for encrypted
//! lyric payloads. Every module is verified; the thin runtime around
//! it (threads, codecs, devices) feeds these functions plain values.
pub mod adapter;
pub mod control;
pub mod des;
pub mod meta;
pub mod output;
pub mod player;
pub mod qdec;
pub mod session;
pub mod shared;
pub mod spectrum;
