//! Low-level codec for the CQL v3 binary protocol: the frame envelope, the
//! request encoders, the response decoders and the type tags they share.
//!
//! Every encoder states the exact bytes it appends and every decoder states,
//! for every input, which value or which error it returns.
use vstd::prelude::*;

pub mod frame;
pub mod requests;
pub mod responses;
pub mod types;
pub mod wire;

pub use requests::Request;
pub use responses::Response;

verus! {

/// Why a decode or an encode call failed for good.
#[derive(Debug, Clone, Copy, PartialEq, Eq, Structural)]
pub enum WireError {
    /// An unknown version, opcode, type code or discriminant; carries the
    /// offending value.
    ProtocolViolation(i32),
    /// A declared length or count needs more bytes than the body holds.
    Truncated,
    /// The lengths are consistent but the content is invalid.
    Malformed,
    /// A value does not fit the width of its length prefix.
    Overflow,
}

/// Outcome of parsing a prefix of a buffer that may still be growing.
#[derive(Debug)]
pub enum ParseResult<T> {
    /// A whole message and the number of bytes it took.
    Complete { message: T, consumed: usize },
    /// More bytes are needed; `required_size` names the total where known.
    Incomplete { required_size: Option<usize> },
}

/// A message that can be appended to an outgoing buffer.
pub trait Serialize {
    /// The bytes of the message, or `None` where it has no encoding.
    spec fn encoding(&self) -> Option<Seq<u8>>;

    /// Appends the message to `buf` and returns the number of bytes written.
    /// A message without an encoding leaves `buf` as it was.
    fn serialize(&self, buf: &mut Vec<u8>) -> (r: Result<usize, WireError>)
        ensures
            match self.encoding() {
                Some(bytes) => r == Ok::<usize, WireError>(bytes.len() as usize)
                    && bytes.len() <= usize::MAX
                    && final(buf)@ == old(buf)@ + bytes,
                None => r == Err::<usize, WireError>(WireError::Overflow)
                    && final(buf)@ == old(buf)@,
            },
    ;
}

/// A message that can be parsed from the front of a buffer.
pub trait Parse<T> {
    /// Whether `r` is the outcome of parsing `bytes`.
    spec fn parsed(bytes: Seq<u8>, r: Result<ParseResult<T>, WireError>) -> bool;

    /// Parses one message from the front of `buf`.
    fn parse(buf: &[u8]) -> (r: Result<ParseResult<T>, WireError>)
        ensures
            Self::parsed(buf@, r),
    ;
}

} // verus!
