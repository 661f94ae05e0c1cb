//! The `"data"` chunk of a WAVE stream, as samples of one width.

use vstd::prelude::*;
use vstd::std_specs::convert::{FromSpecImpl, TryFromSpecImpl};

verus! {

/// Enum listing the supported bit-depths and containers for the samples at
/// each depth.
///
/// Samples of all channels are interleaved, in stream order. A 24-bit sample
/// is held in 32 bits. A 32-bit float sample is held as its IEEE-754 bit
/// pattern, so that two tracks are equal exactly when their bytes are.
/// `Empty` stands for no track at all: it is never read from a stream and
/// cannot be written to one.
#[derive(Debug, PartialEq)]
pub enum BitDepth {
    Eight(Vec<u8>),
    Sixteen(Vec<i16>),
    TwentyFour(Vec<i32>),
    ThirtyTwoFloat(Vec<u32>),
    Empty,
}

/// What a [`BitDepth`] holds, as sequences.
pub enum Samples {
    Eight(Seq<u8>),
    Sixteen(Seq<i16>),
    TwentyFour(Seq<i32>),
    ThirtyTwoFloat(Seq<u32>),
    Empty,
}

impl View for BitDepth {
    type V = Samples;

    open spec fn view(&self) -> Samples {
        match *self {
            BitDepth::Eight(v) => Samples::Eight(v@),
            BitDepth::Sixteen(v) => Samples::Sixteen(v@),
            BitDepth::TwentyFour(v) => Samples::TwentyFour(v@),
            BitDepth::ThirtyTwoFloat(v) => Samples::ThirtyTwoFloat(v@),
            BitDepth::Empty => Samples::Empty,
        }
    }
}

impl BitDepth {
    /// Returns `true` if the bit depth is [`Self::Eight`].
    #[must_use]
    pub fn is_eight(&self) -> (r: bool)
        ensures
            r == (self is Eight),
    {
        matches!(self, Self::Eight(..))
    }

    /// The 8-bit samples, if that is what the track holds.
    #[must_use]
    pub fn as_eight(&self) -> (r: Option<&Vec<u8>>)
        ensures
            match r {
                Some(v) => *self == BitDepth::Eight(*v),
                None => !(self is Eight),
            },
    {
        if let Self::Eight(v) = self {
            Some(v)
        } else {
            None
        }
    }

    /// Gives up the 8-bit samples, or hands the track back as it is.
    pub fn try_into_eight(self) -> (r: Result<Vec<u8>, Self>)
        ensures
            match r {
                Ok(v) => self == BitDepth::Eight(v),
                Err(same) => same == self && !(self is Eight),
            },
    {
        if let Self::Eight(v) = self {
            Ok(v)
        } else {
            Err(self)
        }
    }

    /// Returns `true` if the bit depth is [`Self::Sixteen`].
    #[must_use]
    pub fn is_sixteen(&self) -> (r: bool)
        ensures
            r == (self is Sixteen),
    {
        matches!(self, Self::Sixteen(..))
    }

    /// The 16-bit samples, if that is what the track holds.
    #[must_use]
    pub fn as_sixteen(&self) -> (r: Option<&Vec<i16>>)
        ensures
            match r {
                Some(v) => *self == BitDepth::Sixteen(*v),
                None => !(self is Sixteen),
            },
    {
        if let Self::Sixteen(v) = self {
            Some(v)
        } else {
            None
        }
    }

    /// Gives up the 16-bit samples, or hands the track back as it is.
    pub fn try_into_sixteen(self) -> (r: Result<Vec<i16>, Self>)
        ensures
            match r {
                Ok(v) => self == BitDepth::Sixteen(v),
                Err(same) => same == self && !(self is Sixteen),
            },
    {
        if let Self::Sixteen(v) = self {
            Ok(v)
        } else {
            Err(self)
        }
    }

    /// Returns `true` if the bit depth is [`Self::TwentyFour`].
    #[must_use]
    pub fn is_twenty_four(&self) -> (r: bool)
        ensures
            r == (self is TwentyFour),
    {
        matches!(self, Self::TwentyFour(..))
    }

    /// The 24-bit samples, if that is what the track holds.
    #[must_use]
    pub fn as_twenty_four(&self) -> (r: Option<&Vec<i32>>)
        ensures
            match r {
                Some(v) => *self == BitDepth::TwentyFour(*v),
                None => !(self is TwentyFour),
            },
    {
        if let Self::TwentyFour(v) = self {
            Some(v)
        } else {
            None
        }
    }

    /// Gives up the 24-bit samples, or hands the track back as it is.
    pub fn try_into_twenty_four(self) -> (r: Result<Vec<i32>, Self>)
        ensures
            match r {
                Ok(v) => self == BitDepth::TwentyFour(v),
                Err(same) => same == self && !(self is TwentyFour),
            },
    {
        if let Self::TwentyFour(v) = self {
            Ok(v)
        } else {
            Err(self)
        }
    }

    /// Returns `true` if the bit depth is [`Self::ThirtyTwoFloat`].
    #[must_use]
    pub fn is_thirty_two_float(&self) -> (r: bool)
        ensures
            r == (self is ThirtyTwoFloat),
    {
        matches!(self, Self::ThirtyTwoFloat(..))
    }

    /// The bit patterns of the 32-bit float samples, if that is what the
    /// track holds.
    #[must_use]
    pub fn as_thirty_two_float(&self) -> (r: Option<&Vec<u32>>)
        ensures
            match r {
                Some(v) => *self == BitDepth::ThirtyTwoFloat(*v),
                None => !(self is ThirtyTwoFloat),
            },
    {
        if let Self::ThirtyTwoFloat(v) = self {
            Some(v)
        } else {
            None
        }
    }

    /// Gives up the bit patterns of the 32-bit float samples, or hands the
    /// track back as it is.
    pub fn try_into_thirty_two_float(self) -> (r: Result<Vec<u32>, Self>)
        ensures
            match r {
                Ok(v) => self == BitDepth::ThirtyTwoFloat(v),
                Err(same) => same == self && !(self is ThirtyTwoFloat),
            },
    {
        if let Self::ThirtyTwoFloat(v) = self {
            Ok(v)
        } else {
            Err(self)
        }
    }

    /// Returns `true` if the bit depth is [`Self::Empty`].
    #[must_use]
    pub fn is_empty(&self) -> (r: bool)
        ensures
            r == (self is Empty),
    {
        matches!(self, Self::Empty)
    }
}

impl Clone for BitDepth {
    /// A track of the same width with the same samples.
    fn clone(&self) -> (r: Self)
        ensures
            r@ == self@,
    {
        match self {
            BitDepth::Eight(v) => BitDepth::Eight(v.clone()),
            BitDepth::Sixteen(v) => BitDepth::Sixteen(v.clone()),
            BitDepth::TwentyFour(v) => BitDepth::TwentyFour(v.clone()),
            BitDepth::ThirtyTwoFloat(v) => BitDepth::ThirtyTwoFloat(v.clone()),
            BitDepth::Empty => BitDepth::Empty,
        }
    }
}

impl Default for BitDepth {
    fn default() -> (r: Self)
        ensures
            r is Empty,
    {
        BitDepth::Empty
    }
}

impl From<Vec<u8>> for BitDepth {
    fn from(v: Vec<u8>) -> (r: Self) {
        BitDepth::Eight(v)
    }
}

impl FromSpecImpl<Vec<u8>> for BitDepth {
    open spec fn obeys_from_spec() -> bool {
        true
    }

    open spec fn from_spec(v: Vec<u8>) -> BitDepth {
        BitDepth::Eight(v)
    }
}

impl From<Vec<i16>> for BitDepth {
    fn from(v: Vec<i16>) -> (r: Self) {
        BitDepth::Sixteen(v)
    }
}

impl FromSpecImpl<Vec<i16>> for BitDepth {
    open spec fn obeys_from_spec() -> bool {
        true
    }

    open spec fn from_spec(v: Vec<i16>) -> BitDepth {
        BitDepth::Sixteen(v)
    }
}

impl From<Vec<i32>> for BitDepth {
    fn from(v: Vec<i32>) -> (r: Self) {
        BitDepth::TwentyFour(v)
    }
}

impl FromSpecImpl<Vec<i32>> for BitDepth {
    open spec fn obeys_from_spec() -> bool {
        true
    }

    open spec fn from_spec(v: Vec<i32>) -> BitDepth {
        BitDepth::TwentyFour(v)
    }
}

impl From<Vec<u32>> for BitDepth {
    /// Takes `v` as the bit patterns of 32-bit float samples.
    fn from(v: Vec<u32>) -> (r: Self) {
        BitDepth::ThirtyTwoFloat(v)
    }
}

impl FromSpecImpl<Vec<u32>> for BitDepth {
    open spec fn obeys_from_spec() -> bool {
        true
    }

    open spec fn from_spec(v: Vec<u32>) -> BitDepth {
        BitDepth::ThirtyTwoFloat(v)
    }
}

impl TryFrom<BitDepth> for Vec<u8> {
    type Error = &'static str;

    /// ## Errors
    ///
    /// This function fails if `value` is not `BitDepth::Eight`.
    fn try_from(value: BitDepth) -> (r: Result<Self, Self::Error>) {
        if let BitDepth::Eight(v) = value {
            Ok(v)
        } else {
            Err("Bit-depth is not 8")
        }
    }
}

impl TryFromSpecImpl<BitDepth> for Vec<u8> {
    open spec fn obeys_try_from_spec() -> bool {
        true
    }

    open spec fn try_from_spec(value: BitDepth) -> Result<Self, Self::Error> {
        match value {
            BitDepth::Eight(v) => Ok(v),
            _ => Err("Bit-depth is not 8"),
        }
    }
}

impl TryFrom<BitDepth> for Vec<i16> {
    type Error = &'static str;

    /// ## Errors
    ///
    /// This function fails if `value` is not `BitDepth::Sixteen`.
    fn try_from(value: BitDepth) -> (r: Result<Self, Self::Error>) {
        if let BitDepth::Sixteen(v) = value {
            Ok(v)
        } else {
            Err("Bit-depth is not 16")
        }
    }
}

impl TryFromSpecImpl<BitDepth> for Vec<i16> {
    open spec fn obeys_try_from_spec() -> bool {
        true
    }

    open spec fn try_from_spec(value: BitDepth) -> Result<Self, Self::Error> {
        match value {
            BitDepth::Sixteen(v) => Ok(v),
            _ => Err("Bit-depth is not 16"),
        }
    }
}

impl TryFrom<BitDepth> for Vec<i32> {
    type Error = &'static str;

    /// ## Errors
    ///
    /// This function fails if `value` is not `BitDepth::TwentyFour`.
    fn try_from(value: BitDepth) -> (r: Result<Self, Self::Error>) {
        if let BitDepth::TwentyFour(v) = value {
            Ok(v)
        } else {
            Err("Bit-depth is not 24")
        }
    }
}

impl TryFromSpecImpl<BitDepth> for Vec<i32> {
    open spec fn obeys_try_from_spec() -> bool {
        true
    }

    open spec fn try_from_spec(value: BitDepth) -> Result<Self, Self::Error> {
        match value {
            BitDepth::TwentyFour(v) => Ok(v),
            _ => Err("Bit-depth is not 24"),
        }
    }
}

impl TryFrom<BitDepth> for Vec<u32> {
    type Error = &'static str;

    /// ## Errors
    ///
    /// This function fails if `value` is not `BitDepth::ThirtyTwoFloat`.
    fn try_from(value: BitDepth) -> (r: Result<Self, Self::Error>) {
        if let BitDepth::ThirtyTwoFloat(v) = value {
            Ok(v)
        } else {
            Err("Bit-depth is not 32bit float")
        }
    }
}

impl TryFromSpecImpl<BitDepth> for Vec<u32> {
    open spec fn obeys_try_from_spec() -> bool {
        true
    }

    open spec fn try_from_spec(value: BitDepth) -> Result<Self, Self::Error> {
        match value {
            BitDepth::ThirtyTwoFloat(v) => Ok(v),
            _ => Err("Bit-depth is not 32bit float"),
        }
    }
}

} // verus!
