//! Error kinds reported by the decoder and the display interpreter.

use vstd::prelude::*;

verus! {

/// Why a decode call did not produce a value.
#[derive(Clone, Copy, Debug, PartialEq, Eq, Structural)]
pub enum DecodeError {
    /// A boolean field held a character other than `0` or `1`.
    InvalidBoolean,
    /// A numeral field held a character that is not a base-36 digit.
    InvalidNumeral,
    /// A numeral was well formed but lies outside the range its field allows.
    ValueOutOfRange,
    /// A single-digit enumeration field held a character outside its table.
    InvalidEnumValue,
    /// The batch or command marker is missing, or the dispatch symbol is not
    /// a printable ASCII character.
    InvalidFraming,
    /// Everything read so far is valid, but the input ends inside a token.
    NeedMoreInput,
}

impl DecodeError {
    /// True for the one error a caller recovers from by supplying more bytes.
    pub open spec fn is_recoverable(self) -> bool {
        self == DecodeError::NeedMoreInput
    }

    /// Tells whether retrying with a longer input can succeed.
    pub fn recoverable(&self) -> (r: bool)
        ensures
            r == self.is_recoverable(),
    {
        matches!(self, DecodeError::NeedMoreInput)
    }
}

/// Where and why decoding of a batch failed.
#[derive(Clone, Copy, Debug, PartialEq, Eq, Structural)]
pub struct Failure {
    /// The error that stopped decoding.
    pub kind: DecodeError,
    /// Offset of the marker of the command that was not decoded, counted in
    /// bytes from the start of the batch; zero where the batch marker itself
    /// is missing.
    pub offset: usize,
    /// Dispatch symbol of that command, where decoding got as far as
    /// reading it.
    pub symbol: Option<u8>,
}

/// Why the interpreter did not apply a command.
#[derive(Clone, Copy, Debug, PartialEq, Eq, Structural)]
pub enum InterpretError {
    /// A rectangle has its second corner before its first, or a coordinate
    /// leaves the range of the surface once placed in the viewport.
    InvalidGeometry,
}

} // verus!
