//! Core of an audio capture helper: a session controller that guarantees at
//! most one live capture session, a sample pipeline that chunks incoming
//! samples for a fixed-size rate converter without losing or duplicating a
//! sample, device resolution and stream-configuration negotiation, and the
//! binary frame / JSON encodings of the output protocol.

pub mod control;
pub mod controller;
pub mod device;
pub mod frame;
pub mod pcm;
pub mod pipeline;

pub use frame::MSG_TYPE_AUDIO;
pub use frame::MSG_TYPE_JSON;
pub use frame::write_framed_message;
