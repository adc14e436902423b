//! The fixed nine-byte envelope that precedes every message body.
use vstd::prelude::*;
use vstd::slice::slice_subrange;

use crate::wire::{be_i16, be_i32, i16_be, i32_be, read_i16, read_i32, write_i16, write_i32};
use crate::{Parse, ParseResult, Serialize, WireError};

pub mod flags;

use flags::Flags;

verus! {

/// Size of a frame header in bytes.
pub const FRAME_SIZE: usize = 9;

/// Direction and protocol version, packed in the first header byte: the top
/// bit tells a response from a request, the low bits hold the major version.
#[derive(Debug, Clone, Copy, PartialEq, Eq, Structural)]
pub enum Version {
    RequestV3,
    ResponseV3,
}

impl Version {
    /// The wire byte of a version.
    pub open spec fn byte(self) -> u8 {
        match self {
            Version::RequestV3 => 0x03,
            Version::ResponseV3 => 0x83,
        }
    }

    /// The version that a wire byte stands for, if any.
    pub open spec fn of_byte(byte: u8) -> Result<Version, WireError> {
        if byte == 0x03 {
            Ok(Version::RequestV3)
        } else if byte == 0x83 {
            Ok(Version::ResponseV3)
        } else {
            Err(WireError::ProtocolViolation(byte as i32))
        }
    }

    /// The wire byte of this version.
    pub fn to_byte(self) -> (r: u8)
        ensures
            r == self.byte(),
    {
        match self {
            Version::RequestV3 => 0x03,
            Version::ResponseV3 => 0x83,
        }
    }

    /// Recognizes a version byte; any byte but the two defined ones is a
    /// protocol violation that carries the byte.
    pub fn from_byte(byte: u8) -> (r: Result<Version, WireError>)
        ensures
            r == Self::of_byte(byte),
    {
        match byte {
            0x03 => Ok(Version::RequestV3),
            0x83 => Ok(Version::ResponseV3),
            _ => Err(WireError::ProtocolViolation(byte as i32)),
        }
    }

    /// Whether this version marks a message from the server.
    pub fn is_response(self) -> (r: bool)
        ensures
            r == (self.byte() >= 0x80),
    {
        match self {
            Version::RequestV3 => false,
            Version::ResponseV3 => true,
        }
    }
}

/// The kind of message that a frame carries.
#[derive(Debug, Clone, Copy, PartialEq, Eq, Structural)]
pub enum OpCode {
    Error,
    Startup,
    Ready,
    Authenticate,
    Options,
    Supported,
    Query,
    Result,
    Prepare,
    Execute,
    Register,
    Event,
    Batch,
    AuthChallenge,
    AuthResponse,
    AuthSuccess,
}

impl OpCode {
    /// The wire byte of an opcode.
    pub open spec fn byte(self) -> u8 {
        match self {
            OpCode::Error => 0x00,
            OpCode::Startup => 0x01,
            OpCode::Ready => 0x02,
            OpCode::Authenticate => 0x03,
            OpCode::Options => 0x05,
            OpCode::Supported => 0x06,
            OpCode::Query => 0x07,
            OpCode::Result => 0x08,
            OpCode::Prepare => 0x09,
            OpCode::Execute => 0x0A,
            OpCode::Register => 0x0B,
            OpCode::Event => 0x0C,
            OpCode::Batch => 0x0D,
            OpCode::AuthChallenge => 0x0E,
            OpCode::AuthResponse => 0x0F,
            OpCode::AuthSuccess => 0x10,
        }
    }

    /// The opcode that a wire byte stands for, if any.
    pub open spec fn of_byte(byte: u8) -> Result<OpCode, WireError> {
        if byte == 0x00 {
            Ok(OpCode::Error)
        } else if byte == 0x01 {
            Ok(OpCode::Startup)
        } else if byte == 0x02 {
            Ok(OpCode::Ready)
        } else if byte == 0x03 {
            Ok(OpCode::Authenticate)
        } else if byte == 0x05 {
            Ok(OpCode::Options)
        } else if byte == 0x06 {
            Ok(OpCode::Supported)
        } else if byte == 0x07 {
            Ok(OpCode::Query)
        } else if byte == 0x08 {
            Ok(OpCode::Result)
        } else if byte == 0x09 {
            Ok(OpCode::Prepare)
        } else if byte == 0x0A {
            Ok(OpCode::Execute)
        } else if byte == 0x0B {
            Ok(OpCode::Register)
        } else if byte == 0x0C {
            Ok(OpCode::Event)
        } else if byte == 0x0D {
            Ok(OpCode::Batch)
        } else if byte == 0x0E {
            Ok(OpCode::AuthChallenge)
        } else if byte == 0x0F {
            Ok(OpCode::AuthResponse)
        } else if byte == 0x10 {
            Ok(OpCode::AuthSuccess)
        } else {
            Err(WireError::ProtocolViolation(byte as i32))
        }
    }

    /// The wire byte of this opcode.
    pub fn to_byte(self) -> (r: u8)
        ensures
            r == self.byte(),
    {
        match self {
            OpCode::Error => 0x00,
            OpCode::Startup => 0x01,
            OpCode::Ready => 0x02,
            OpCode::Authenticate => 0x03,
            OpCode::Options => 0x05,
            OpCode::Supported => 0x06,
            OpCode::Query => 0x07,
            OpCode::Result => 0x08,
            OpCode::Prepare => 0x09,
            OpCode::Execute => 0x0A,
            OpCode::Register => 0x0B,
            OpCode::Event => 0x0C,
            OpCode::Batch => 0x0D,
            OpCode::AuthChallenge => 0x0E,
            OpCode::AuthResponse => 0x0F,
            OpCode::AuthSuccess => 0x10,
        }
    }

    /// Recognizes an opcode byte; a byte that names no opcode is a protocol
    /// violation that carries the byte.
    pub fn from_byte(byte: u8) -> (r: Result<OpCode, WireError>)
        ensures
            r == Self::of_byte(byte),
    {
        match byte {
            0x00 => Ok(OpCode::Error),
            0x01 => Ok(OpCode::Startup),
            0x02 => Ok(OpCode::Ready),
            0x03 => Ok(OpCode::Authenticate),
            0x05 => Ok(OpCode::Options),
            0x06 => Ok(OpCode::Supported),
            0x07 => Ok(OpCode::Query),
            0x08 => Ok(OpCode::Result),
            0x09 => Ok(OpCode::Prepare),
            0x0A => Ok(OpCode::Execute),
            0x0B => Ok(OpCode::Register),
            0x0C => Ok(OpCode::Event),
            0x0D => Ok(OpCode::Batch),
            0x0E => Ok(OpCode::AuthChallenge),
            0x0F => Ok(OpCode::AuthResponse),
            0x10 => Ok(OpCode::AuthSuccess),
            _ => Err(WireError::ProtocolViolation(byte as i32)),
        }
    }
}

/// The framing information of one message: version, flags, the stream that
/// ties a response to its request, the opcode and the length of the body.
#[derive(Debug, Clone, Copy, PartialEq, Eq, Structural)]
pub struct Frame {
    pub version: Version,
    pub flags: Flags,
    pub stream: i16,
    pub opcode: OpCode,
    pub length: i32,
}

impl Frame {
    /// The nine header bytes of a frame, in wire order.
    pub open spec fn header(self) -> Seq<u8> {
        seq![self.version.byte(), self.flags.bits] + i16_be(self.stream) + seq![
            self.opcode.byte(),
        ] + i32_be(self.length)
    }

    /// What parsing a header from the front of `bytes` gives. Fewer than
    /// nine bytes are incomplete, with no size hint; nine or more decide.
    pub open spec fn decoding(bytes: Seq<u8>) -> Result<ParseResult<Frame>, WireError> {
        if bytes.len() < 9 {
            Ok(ParseResult::Incomplete { required_size: None })
        } else {
            match Version::of_byte(bytes[0]) {
                Err(e) => Err(e),
                Ok(version) => match OpCode::of_byte(bytes[4]) {
                    Err(e) => Err(e),
                    Ok(opcode) => Ok(
                        ParseResult::Complete {
                            message: Frame {
                                version,
                                flags: Flags { bits: bytes[1] },
                                stream: be_i16(bytes.subrange(2, 4)),
                                opcode,
                                length: be_i32(bytes.subrange(5, 9)),
                            },
                            consumed: 9,
                        },
                    ),
                },
            }
        }
    }

    /// What parsing a header and waiting for its body gives: a negative
    /// length is malformed, a body that has not arrived in full is
    /// incomplete and names the total size needed.
    pub open spec fn envelope_decoding(bytes: Seq<u8>) -> Result<ParseResult<Frame>, WireError> {
        match Self::decoding(bytes) {
            Ok(ParseResult::Complete { message, consumed }) => {
                if message.length < 0 {
                    Err(WireError::Malformed)
                } else if bytes.len() < 9 + message.length {
                    Ok(
                        ParseResult::Incomplete {
                            required_size: Some((9 + message.length) as usize),
                        },
                    )
                } else {
                    Ok(ParseResult::Complete { message, consumed })
                }
            },
            other => other,
        }
    }

    /// Parses a header from the front of `buf` and checks that the body it
    /// announces is there too. On success the body is the `length` bytes
    /// that follow the header.
    pub fn parse_envelope(buf: &[u8]) -> (r: Result<ParseResult<Frame>, WireError>)
        ensures
            r == Self::envelope_decoding(buf@),
    {
        match Frame::parse(buf) {
            Ok(ParseResult::Complete { message, consumed }) => {
                if message.length < 0 {
                    Err(WireError::Malformed)
                } else {
                    let need: usize = FRAME_SIZE + message.length as usize;
                    if buf.len() < need {
                        Ok(ParseResult::Incomplete { required_size: Some(need) })
                    } else {
                        Ok(ParseResult::Complete { message, consumed })
                    }
                }
            },
            other => other,
        }
    }
}

impl Serialize for Frame {
    open spec fn encoding(&self) -> Option<Seq<u8>> {
        Some(self.header())
    }

    fn serialize(&self, buf: &mut Vec<u8>) -> (r: Result<usize, WireError>) {
        buf.push(self.version.to_byte());
        buf.push(self.flags.bits());
        write_i16(buf, self.stream);
        buf.push(self.opcode.to_byte());
        write_i32(buf, self.length);
        assert(buf@ =~= old(buf)@ + self.header());
        Ok(FRAME_SIZE)
    }
}

impl Parse<Frame> for Frame {
    open spec fn parsed(bytes: Seq<u8>, r: Result<ParseResult<Frame>, WireError>) -> bool {
        r == Frame::decoding(bytes)
    }

    fn parse(buf: &[u8]) -> (r: Result<ParseResult<Frame>, WireError>) {
        if buf.len() < FRAME_SIZE {
            return Ok(ParseResult::Incomplete { required_size: None });
        }
        let version = match Version::from_byte(buf[0]) {
            Ok(v) => v,
            Err(e) => { return Err(e); },
        };
        let flags = Flags::from_bits_retain(buf[1]);
        let stream: i16 = match read_i16(slice_subrange(buf, 2, 4)) {
            Ok(v) => v,
            Err(e) => { return Err(e); },
        };
        let opcode = match OpCode::from_byte(buf[4]) {
            Ok(v) => v,
            Err(e) => { return Err(e); },
        };
        let length: i32 = match read_i32(slice_subrange(buf, 5, 9)) {
            Ok(v) => v,
            Err(e) => { return Err(e); },
        };
        Ok(
            ParseResult::Complete {
                message: Frame { version, flags, stream, opcode, length },
                consumed: FRAME_SIZE,
            },
        )
    }
}

/// Parsing an encoded header gives the frame back and consumes nine bytes,
/// whatever follows the header.
pub proof fn frame_round_trip(frame: Frame, rest: Seq<u8>)
    ensures
        frame.header().len() == 9,
        Frame::decoding(frame.header() + rest) == Ok::<ParseResult<Frame>, WireError>(
            ParseResult::Complete { message: frame, consumed: 9 },
        ),
{
    let bytes = frame.header() + rest;
    crate::wire::i16_round_trip(frame.stream, Seq::empty());
    crate::wire::i32_round_trip(frame.length, Seq::empty());
    assert(bytes.subrange(2, 4) =~= i16_be(frame.stream) + Seq::<u8>::empty());
    assert(bytes.subrange(5, 9) =~= i32_be(frame.length) + Seq::<u8>::empty());
}

/// A buffer shorter than a header is incomplete, with no size hint.
pub proof fn short_buffer_is_incomplete(bytes: Seq<u8>)
    requires
        bytes.len() < 9,
    ensures
        Frame::decoding(bytes) == Ok::<ParseResult<Frame>, WireError>(
            ParseResult::Incomplete { required_size: None },
        ),
        Frame::envelope_decoding(bytes) == Frame::decoding(bytes),
{
}

/// A full header with an unknown version byte is a protocol violation that
/// carries the byte.
pub proof fn unknown_version_is_violation(bytes: Seq<u8>)
    requires
        bytes.len() >= 9,
        bytes[0] != 0x03,
        bytes[0] != 0x83,
    ensures
        Frame::decoding(bytes) == Err::<ParseResult<Frame>, WireError>(
            WireError::ProtocolViolation(bytes[0] as i32),
        ),
{
}

/// A header that announces more body bytes than the buffer holds is
/// incomplete and names the size of header and body together.
pub proof fn short_body_is_incomplete(frame: Frame, body: Seq<u8>)
    requires
        0 <= body.len() < frame.length,
    ensures
        Frame::envelope_decoding(frame.header() + body) == Ok::<ParseResult<Frame>, WireError>(
            ParseResult::Incomplete { required_size: Some((9 + frame.length) as usize) },
        ),
{
    frame_round_trip(frame, body);
}

} // verus!
