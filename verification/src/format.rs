//! Sample element kinds and the wire format tags they resolve to.

use vstd::prelude::*;

verus! {

/// The kind of one sample element: the numeric type of one channel's
/// amplitude at one instant.
#[derive(Debug, Clone, Copy, PartialEq, Eq, Structural)]
pub enum Sampleable {
    /// Unsigned 8-bit integer.
    U8,
    /// Signed 16-bit integer.
    I16,
    /// Signed 32-bit integer.
    I32,
    /// 32-bit IEEE float.
    F32,
}

/// A byte order.
#[derive(Debug, Clone, Copy, PartialEq, Eq, Structural)]
pub enum Endianness {
    Little,
    Big,
}

/// The encoding identifier sent to the server to describe buffer contents.
#[derive(Debug, Clone, Copy, PartialEq, Eq, Structural)]
pub enum FormatTag {
    U8,
    S16Le,
    S16Be,
    Float32Le,
    Float32Be,
    S32Le,
    S32Be,
}

/// The tag of `kind` on a host with byte order `order`. The 8-bit kind has a
/// single tag; every wider kind has one tag per byte order.
pub open spec fn spec_format_of(kind: Sampleable, order: Endianness) -> FormatTag {
    match (kind, order) {
        (Sampleable::U8, _) => FormatTag::U8,
        (Sampleable::I16, Endianness::Little) => FormatTag::S16Le,
        (Sampleable::I16, Endianness::Big) => FormatTag::S16Be,
        (Sampleable::I32, Endianness::Little) => FormatTag::S32Le,
        (Sampleable::I32, Endianness::Big) => FormatTag::S32Be,
        (Sampleable::F32, Endianness::Little) => FormatTag::Float32Le,
        (Sampleable::F32, Endianness::Big) => FormatTag::Float32Be,
    }
}

/// Resolves a sample element kind to its format tag for the given host byte
/// order. Total: every kind has a tag.
pub fn format_of(kind: Sampleable, order: Endianness) -> (tag: FormatTag)
    ensures
        tag == spec_format_of(kind, order),
{
    match kind {
        Sampleable::U8 => FormatTag::U8,
        Sampleable::I16 => match order {
            Endianness::Little => FormatTag::S16Le,
            Endianness::Big => FormatTag::S16Be,
        },
        Sampleable::I32 => match order {
            Endianness::Little => FormatTag::S32Le,
            Endianness::Big => FormatTag::S32Be,
        },
        Sampleable::F32 => match order {
            Endianness::Little => FormatTag::Float32Le,
            Endianness::Big => FormatTag::Float32Be,
        },
    }
}

/// `u16::to_ne_bytes`: the two bytes of `value` as this machine keeps them in
/// memory, which is either low byte first or high byte first. Nothing is
/// claimed about which.
#[verifier::external_body]
fn native_bytes(value: u16) -> (bytes: [u8; 2])
    ensures
        (bytes@[0] == value % 256 && bytes@[1] == value / 256) || (bytes@[0] == value / 256
            && bytes@[1] == value % 256),
{
    value.to_ne_bytes()
}

impl Endianness {
    /// The byte order of a machine that keeps the 16-bit number one in memory
    /// as `image`: low byte first is little endian.
    pub fn of_image(image: [u8; 2]) -> (order: Endianness)
        ensures
            order == (if image@[0] == 1 {
                Endianness::Little
            } else {
                Endianness::Big
            }),
    {
        if image[0] == 1 {
            Endianness::Little
        } else {
            Endianness::Big
        }
    }

    /// The byte order of the machine this code runs on, read off its memory
    /// image of the number one.
    pub fn host() -> (order: Endianness) {
        Endianness::of_image(native_bytes(1))
    }
}

impl Sampleable {
    /// Bytes taken by one sample element of this kind.
    pub open spec fn spec_width(self) -> nat {
        match self {
            Sampleable::U8 => 1,
            Sampleable::I16 => 2,
            Sampleable::I32 => 4,
            Sampleable::F32 => 4,
        }
    }

    /// Bytes taken by one sample element of this kind.
    pub fn width(self) -> (w: usize)
        ensures
            w == self.spec_width(),
    {
        match self {
            Sampleable::U8 => 1,
            Sampleable::I16 => 2,
            Sampleable::I32 => 4,
            Sampleable::F32 => 4,
        }
    }

    /// The tag of this kind in the byte order of the running machine: the
    /// server is told the host's order, never a fixed one.
    pub fn format(self) -> (tag: FormatTag)
        ensures
            tag == spec_format_of(self, Endianness::Little) || tag == spec_format_of(
                self,
                Endianness::Big,
            ),
    {
        format_of(self, Endianness::host())
    }
}

} // verus!
