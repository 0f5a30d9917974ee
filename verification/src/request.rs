//! What is asked of the server when a stream is opened.

use vstd::prelude::*;
use crate::channel::ChannelCount;
use crate::format::FormatTag;
use crate::text::{has_terminator, terminated};

verus! {

/// Which way the samples of a stream flow.
#[derive(Debug, Clone, Copy, PartialEq, Eq, Structural)]
pub enum Direction {
    /// From the caller to the server.
    Playback,
    /// From the server to the caller.
    Record,
}

/// The sample spec negotiated with the server.
#[derive(Debug, Clone, Copy, PartialEq, Eq, Structural)]
pub struct SampleSpec {
    /// How each sample is encoded.
    pub format: FormatTag,
    /// Samples per frame.
    pub channels: u8,
    /// Frames per second.
    pub rate: u32,
}

/// The parameters of one connection to the default local server, with the
/// server's default channel map and buffering. Every text is UTF-8 closed by
/// a zero byte.
#[derive(Debug)]
pub struct OpenRequest {
    /// The application's name.
    pub name: Vec<u8>,
    /// What the stream is for.
    pub description: Vec<u8>,
    /// The device to use; `None` asks for the server's default device.
    pub device: Option<Vec<u8>>,
    pub direction: Direction,
    pub spec: SampleSpec,
}

/// An [`OpenRequest`] as a mathematical value.
pub struct OpenRequestView {
    pub name: Seq<u8>,
    pub description: Seq<u8>,
    pub device: Option<Seq<u8>>,
    pub direction: Direction,
    pub spec: SampleSpec,
}

impl View for OpenRequest {
    type V = OpenRequestView;

    open spec fn view(&self) -> OpenRequestView {
        OpenRequestView {
            name: self.name@,
            description: self.description@,
            device: match self.device {
                Some(device) => Some(device@),
                None => None,
            },
            direction: self.direction,
            spec: self.spec,
        }
    }
}

/// The characters of an optional device name.
pub open spec fn device_text(device: Option<&str>) -> Option<Seq<char>> {
    match device {
        Some(text) => Some(text@),
        None => None,
    }
}

/// True when one of the texts of a connection holds the terminator
/// character, so that no request can be made of them.
pub open spec fn refused(name: Seq<char>, description: Seq<char>, device: Option<Seq<char>>) -> bool {
    ||| has_terminator(name)
    ||| has_terminator(description)
    ||| (device matches Some(text) && has_terminator(text))
}

/// The sample spec of a stream of `shape` frames at `rate` frames per second.
pub open spec fn spec_sample_spec(shape: ChannelCount, rate: u32) -> SampleSpec {
    SampleSpec { format: shape.spec_format(), channels: shape.spec_count(), rate }
}

/// The request that opens a stream with the given parameters.
pub open spec fn spec_request(
    name: Seq<char>,
    description: Seq<char>,
    direction: Direction,
    device: Option<Seq<char>>,
    rate: u32,
    shape: ChannelCount,
) -> OpenRequestView {
    OpenRequestView {
        name: terminated(name),
        description: terminated(description),
        device: match device {
            Some(text) => Some(terminated(text)),
            None => None,
        },
        direction,
        spec: spec_sample_spec(shape, rate),
    }
}

} // verus!
