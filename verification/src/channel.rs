//! The shape of a frame: how many samples of which kind it interleaves.

use vstd::prelude::*;
use crate::error::Error;
use crate::format::{format_of, spec_format_of, Endianness, FormatTag, Sampleable};

verus! {

/// A frame shape: a positive number of channels, each one sample element of
/// the same kind, together with the format tag that kind resolved to. A
/// stream keeps one shape for its whole life, so the byte size of its frames
/// never changes.
#[derive(Debug, Clone, Copy, PartialEq, Eq, Structural)]
pub struct ChannelCount {
    kind: Sampleable,
    channels: u8,
    format: FormatTag,
}

impl ChannelCount {
    #[verifier::type_invariant]
    spec fn well_formed(self) -> bool {
        &&& self.channels >= 1
        &&& (self.format == spec_format_of(self.kind, Endianness::Little) || self.format
            == spec_format_of(self.kind, Endianness::Big))
    }

    /// The kind of every sample element of the frame.
    pub closed spec fn spec_kind(self) -> Sampleable {
        self.kind
    }

    /// The number of channels.
    pub closed spec fn spec_count(self) -> u8 {
        self.channels
    }

    /// The format tag that describes the frame's samples to the server.
    pub closed spec fn spec_format(self) -> FormatTag {
        self.format
    }

    /// Bytes taken by one frame: one element width per channel.
    pub open spec fn spec_sample_size(self) -> nat {
        self.spec_count() as nat * self.spec_kind().spec_width()
    }

    /// A shape of `channels` samples of `kind`, tagged for a host of the
    /// given byte order. A shape without channels is refused.
    pub fn with_order(kind: Sampleable, channels: u8, order: Endianness) -> (r: Result<
        ChannelCount,
        Error,
    >)
        ensures
            match r {
                Ok(shape) => {
                    &&& channels >= 1
                    &&& shape.spec_kind() == kind
                    &&& shape.spec_count() == channels
                    &&& shape.spec_format() == spec_format_of(kind, order)
                },
                Err(e) => channels == 0 && e == Error::Configuration,
            },
    {
        if channels == 0 {
            return Err(Error::Configuration);
        }
        Ok(ChannelCount { kind, channels, format: format_of(kind, order) })
    }

    /// A shape of `channels` samples of `kind`, tagged for the machine this
    /// code runs on. A shape without channels is refused.
    pub fn new(kind: Sampleable, channels: u8) -> (r: Result<ChannelCount, Error>)
        ensures
            match r {
                Ok(shape) => {
                    &&& channels >= 1
                    &&& shape.spec_kind() == kind
                    &&& shape.spec_count() == channels
                    &&& (shape.spec_format() == spec_format_of(kind, Endianness::Little)
                        || shape.spec_format() == spec_format_of(kind, Endianness::Big))
                },
                Err(e) => channels == 0 && e == Error::Configuration,
            },
    {
        ChannelCount::with_order(kind, channels, Endianness::host())
    }

    /// The shape of the frames that values of type `T` are in memory:
    /// `channels` samples of `kind`, tagged for the machine this code runs
    /// on. It is refused where a `T` does not take exactly the bytes of such
    /// a frame, so that a buffer of `T` can never disagree with the format
    /// that its stream told the server.
    pub fn of_frame<T>(kind: Sampleable, channels: u8) -> (r: Result<ChannelCount, Error>)
        ensures
            match r {
                Ok(shape) => {
                    &&& channels >= 1
                    &&& vstd::layout::size_of::<T>() == channels * kind.spec_width()
                    &&& shape.spec_kind() == kind
                    &&& shape.spec_count() == channels
                    &&& (shape.spec_format() == spec_format_of(kind, Endianness::Little)
                        || shape.spec_format() == spec_format_of(kind, Endianness::Big))
                },
                Err(e) => {
                    &&& channels == 0 || vstd::layout::size_of::<T>() != channels
                        * kind.spec_width()
                    &&& e == Error::Configuration
                },
            },
    {
        match ChannelCount::new(kind, channels) {
            Ok(shape) => {
                if core::mem::size_of::<T>() == shape.sample_size() {
                    Ok(shape)
                } else {
                    Err(Error::Configuration)
                }
            },
            Err(e) => Err(e),
        }
    }

    /// The kind of every sample element of the frame.
    pub fn kind(&self) -> (kind: Sampleable)
        ensures
            kind == self.spec_kind(),
    {
        self.kind
    }

    /// The number of channels, never zero.
    pub fn count(&self) -> (n: u8)
        ensures
            n == self.spec_count(),
            n >= 1,
    {
        proof {
            use_type_invariant(self);
        }
        self.channels
    }

    /// The format tag that describes the frame's samples to the server: the
    /// tag of the element kind in one of the two byte orders.
    pub fn format(&self) -> (tag: FormatTag)
        ensures
            tag == self.spec_format(),
            tag == spec_format_of(self.spec_kind(), Endianness::Little) || tag == spec_format_of(
                self.spec_kind(),
                Endianness::Big,
            ),
    {
        proof {
            use_type_invariant(self);
        }
        self.format
    }

    /// Bytes taken by one frame: the channel count times the element width.
    pub fn sample_size(&self) -> (size: usize)
        ensures
            size == self.spec_sample_size(),
            size == self.spec_count() * self.spec_kind().spec_width(),
            1 <= size <= 1020,
    {
        proof {
            use_type_invariant(self);
        }
        let n: usize = self.channels as usize;
        n * self.kind.width()
    }
}

} // verus!
