use cql_wire::frame::flags::Flags;
use cql_wire::frame::{Frame, OpCode, Version, FRAME_SIZE};
use cql_wire::requests::Startup;
use cql_wire::types::{Compression, CqlVersion};
use cql_wire::wire::{read_i16, read_i32, read_u16, write_i16, write_i32, write_u16};
use cql_wire::{Parse, ParseResult, Serialize, WireError};

fn complete(r: Result<ParseResult<Frame>, WireError>) -> (Frame, usize) {
    match r {
        Ok(ParseResult::Complete { message, consumed }) => (message, consumed),
        other => panic!("not complete: {:?}", other),
    }
}

#[test]
fn frame_encodes_nine_bytes() {
    let frame = Frame {
        version: Version::RequestV3,
        flags: Flags::none(),
        stream: 0,
        opcode: OpCode::Startup,
        length: 40,
    };
    let mut buf = Vec::new();
    assert_eq!(frame.serialize(&mut buf), Ok(9));
    assert_eq!(buf, vec![0x03, 0x00, 0x00, 0x00, 0x01, 0x00, 0x00, 0x00, 0x28]);
    assert_eq!(FRAME_SIZE, 9);
}

#[test]
fn frame_round_trip_with_negative_fields() {
    let frame = Frame {
        version: Version::ResponseV3,
        flags: Flags::from_bits_retain(0xF1),
        stream: -2,
        opcode: OpCode::AuthSuccess,
        length: -3,
    };
    let mut buf = vec![0xEEu8];
    assert_eq!(frame.serialize(&mut buf), Ok(9));
    assert_eq!(buf, vec![0xEE, 0x83, 0xF1, 0xFF, 0xFE, 0x10, 0xFF, 0xFF, 0xFF, 0xFD]);
    let (back, consumed) = complete(Frame::parse(&buf[1..]));
    assert_eq!(back, frame);
    assert_eq!(consumed, 9);
}

#[test]
fn frame_round_trip_every_opcode() {
    let opcodes = [
        (OpCode::Error, 0x00u8),
        (OpCode::Startup, 0x01),
        (OpCode::Ready, 0x02),
        (OpCode::Authenticate, 0x03),
        (OpCode::Options, 0x05),
        (OpCode::Supported, 0x06),
        (OpCode::Query, 0x07),
        (OpCode::Result, 0x08),
        (OpCode::Prepare, 0x09),
        (OpCode::Execute, 0x0A),
        (OpCode::Register, 0x0B),
        (OpCode::Event, 0x0C),
        (OpCode::Batch, 0x0D),
        (OpCode::AuthChallenge, 0x0E),
        (OpCode::AuthResponse, 0x0F),
        (OpCode::AuthSuccess, 0x10),
    ];
    for (opcode, byte) in opcodes {
        assert_eq!(opcode.to_byte(), byte);
        assert_eq!(OpCode::from_byte(byte), Ok(opcode));
        let frame = Frame {
            version: Version::RequestV3,
            flags: Flags::tracing(),
            stream: 0x0102,
            opcode,
            length: 0x0A0B0C0D,
        };
        let mut buf = Vec::new();
        frame.serialize(&mut buf).unwrap();
        assert_eq!(buf, vec![0x03, 0x02, 0x01, 0x02, byte, 0x0A, 0x0B, 0x0C, 0x0D]);
        buf.push(0x77);
        let (back, consumed) = complete(Frame::parse(&buf));
        assert_eq!(back, frame);
        assert_eq!(consumed, 9);
    }
}

#[test]
fn short_buffer_is_incomplete_without_hint() {
    let bytes = [0x03u8, 0x00, 0x00, 0x00, 0x01, 0x00, 0x00, 0x00];
    for n in 0..=8 {
        match Frame::parse(&bytes[..n]) {
            Ok(ParseResult::Incomplete { required_size }) => assert_eq!(required_size, None),
            other => panic!("not incomplete: {:?}", other),
        }
    }
}

#[test]
fn unknown_version_is_a_violation() {
    let bytes = [0x99u8, 0x00, 0x00, 0x00, 0x01, 0x00, 0x00, 0x00, 0x00];
    match Frame::parse(&bytes) {
        Err(e) => assert_eq!(e, WireError::ProtocolViolation(0x99)),
        Ok(other) => panic!("accepted: {:?}", other),
    }
    assert_eq!(Version::from_byte(0x99), Err(WireError::ProtocolViolation(0x99)));
    assert_eq!(Version::from_byte(0x03), Ok(Version::RequestV3));
    assert_eq!(Version::from_byte(0x83), Ok(Version::ResponseV3));
    assert_eq!(Version::RequestV3.to_byte(), 0x03);
    assert_eq!(Version::ResponseV3.to_byte(), 0x83);
    assert!(Version::ResponseV3.is_response());
    assert!(!Version::RequestV3.is_response());
}

#[test]
fn unknown_opcode_is_a_violation() {
    let bytes = [0x03u8, 0x00, 0x00, 0x00, 0x04, 0x00, 0x00, 0x00, 0x00];
    match Frame::parse(&bytes) {
        Err(e) => assert_eq!(e, WireError::ProtocolViolation(0x04)),
        Ok(other) => panic!("accepted: {:?}", other),
    }
    assert_eq!(OpCode::from_byte(0x11), Err(WireError::ProtocolViolation(0x11)));
    assert_eq!(OpCode::from_byte(0xFF), Err(WireError::ProtocolViolation(0xFF)));
}

#[test]
fn flags_keep_unknown_bits() {
    let bytes = [0x83u8, 0xF3, 0x00, 0x00, 0x02, 0x00, 0x00, 0x00, 0x00];
    let (frame, _) = complete(Frame::parse(&bytes));
    assert_eq!(frame.flags.bits(), 0xF3);
    assert!(frame.flags.contains(Flags::compressed()));
    assert!(frame.flags.contains(Flags::tracing()));
    let mut out = Vec::new();
    frame.serialize(&mut out).unwrap();
    assert_eq!(out, bytes.to_vec());
}

#[test]
fn flags_operations() {
    assert_eq!(Flags::none().bits(), 0);
    assert!(Flags::none().is_empty());
    assert_eq!(Flags::compressed().bits(), 0x01);
    assert_eq!(Flags::tracing().bits(), 0x02);
    assert_eq!(Flags::from_bits_truncate(0xF1).bits(), 0x01);
    assert_eq!(Flags::from_bits(0x03), Some(Flags::from_bits_retain(0x03)));
    assert_eq!(Flags::from_bits(0x04), None);
    assert_eq!(Flags::compressed().union(Flags::tracing()).bits(), 0x03);
    assert!(!Flags::compressed().contains(Flags::tracing()));
    assert!(Flags::compressed().contains(Flags::none()));
}

#[test]
fn envelope_waits_for_the_body() {
    let mut bytes = vec![0x83u8, 0x00, 0x00, 0x07, 0x08, 0x00, 0x00, 0x00, 0x04];
    match Frame::parse_envelope(&bytes[..5]) {
        Ok(ParseResult::Incomplete { required_size }) => assert_eq!(required_size, None),
        other => panic!("not incomplete: {:?}", other),
    }
    bytes.extend_from_slice(&[0x00, 0x00, 0x00]);
    match Frame::parse_envelope(&bytes) {
        Ok(ParseResult::Incomplete { required_size }) => assert_eq!(required_size, Some(13)),
        other => panic!("not incomplete: {:?}", other),
    }
    bytes.push(0x01);
    let (frame, consumed) = complete(Frame::parse_envelope(&bytes));
    assert_eq!(consumed, 9);
    assert_eq!(frame.length, 4);
    assert_eq!(frame.stream, 7);
    assert_eq!(frame.opcode, OpCode::Result);
}

#[test]
fn envelope_refuses_negative_length() {
    let bytes = [0x83u8, 0x00, 0x00, 0x00, 0x02, 0x80, 0x00, 0x00, 0x00];
    match Frame::parse_envelope(&bytes) {
        Err(e) => assert_eq!(e, WireError::Malformed),
        Ok(other) => panic!("accepted: {:?}", other),
    }
    let (frame, _) = complete(Frame::parse(&bytes));
    assert_eq!(frame.length, i32::MIN);
}

#[test]
fn envelope_passes_violations_on() {
    let bytes = [0x99u8, 0x00, 0x00, 0x00, 0x02, 0x00, 0x00, 0x00, 0x00];
    match Frame::parse_envelope(&bytes) {
        Err(e) => assert_eq!(e, WireError::ProtocolViolation(0x99)),
        Ok(other) => panic!("accepted: {:?}", other),
    }
}

#[test]
fn startup_wrapped_in_a_frame() {
    let startup = Startup { cql_version: CqlVersion::V_3_0_0, compression: Compression::LZ4 };
    let mut body = Vec::new();
    let written = startup.serialize(&mut body).unwrap();
    let frame = Frame {
        version: Version::RequestV3,
        flags: Flags::none(),
        stream: 0,
        opcode: OpCode::Startup,
        length: written as i32,
    };
    let mut message = Vec::new();
    assert_eq!(frame.serialize(&mut message), Ok(9));
    assert_eq!(message.len(), 9);
    message.extend_from_slice(&body);
    let (back, consumed) = complete(Frame::parse_envelope(&message));
    assert_eq!(consumed, 9);
    assert_eq!(back.length as usize, body.len());
    assert_eq!(message.len(), 9 + back.length as usize);
}

#[test]
fn integers_are_big_endian() {
    let mut buf = Vec::new();
    write_u16(&mut buf, 0xABCD);
    write_i16(&mut buf, -2);
    write_i16(&mut buf, 0x0102);
    write_i32(&mut buf, -2);
    write_i32(&mut buf, 0x01020304);
    assert_eq!(
        buf,
        vec![0xAB, 0xCD, 0xFF, 0xFE, 0x01, 0x02, 0xFF, 0xFF, 0xFF, 0xFE, 0x01, 0x02, 0x03, 0x04]
    );
    assert_eq!(read_u16(&buf), Ok(0xABCD));
    assert_eq!(read_i16(&buf[2..]), Ok(-2));
    assert_eq!(read_i16(&buf[4..]), Ok(0x0102));
    assert_eq!(read_i32(&buf[6..]), Ok(-2));
    assert_eq!(read_i32(&buf[10..]), Ok(0x01020304));
    assert_eq!(read_u16(&[0x80]), Err(WireError::Truncated));
    assert_eq!(read_i16(&[]), Err(WireError::Truncated));
    assert_eq!(read_i32(&[1, 2, 3]), Err(WireError::Truncated));
    assert_eq!(read_u16(&[0xFF, 0xFF, 0x00]), Ok(0xFFFF));
    assert_eq!(read_i16(&[0x80, 0x00]), Ok(i16::MIN));
    assert_eq!(read_i32(&[0x7F, 0xFF, 0xFF, 0xFF]), Ok(i32::MAX));
}
