//! Verified core of a client for blocking PCM audio streams.
//!
//! The crate decides; its caller talks to the audio server. It resolves a
//! sample element kind to a wire format tag, derives the byte layout of a
//! frame, validates the parameters of a connection, tracks the life of the
//! one native resource behind a stream, and says how many bytes each transfer
//! moves and whether it succeeded.

pub mod channel;
pub mod client;
pub mod error;
pub mod format;
pub mod lifecycle;
pub mod playback;
pub mod record;
pub mod request;
pub mod text;

pub use crate::channel::ChannelCount;
pub use crate::client::SimpleClient;
pub use crate::error::Error;
pub use crate::format::{format_of, Endianness, FormatTag, Sampleable};
pub use crate::lifecycle::{State, Transfer};
pub use crate::playback::Playback;
pub use crate::record::Record;
pub use crate::request::{Direction, OpenRequest, SampleSpec};
