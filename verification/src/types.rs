//! The CQL type tags, the negotiable option values and the capability by
//! which a value to be bound writes its own bytes.
use vstd::prelude::*;

use crate::wire::{be_i32, i32_be, read_i32, write_i32};
use crate::WireError;

verus! {

/// A version of the query language that a connection can ask for.
#[allow(non_camel_case_types)]
#[derive(Debug, Clone, Copy, PartialEq, Eq, Structural, Hash)]
pub enum CqlVersion {
    V_3_0_0,
}

impl CqlVersion {
    /// The canonical text of a version.
    pub open spec fn text(self) -> Seq<char> {
        "3.0.0"@
    }

    /// The canonical text of this version.
    pub fn to_str(&self) -> (r: &'static str)
        ensures
            r@ == self.text(),
    {
        match *self {
            CqlVersion::V_3_0_0 => "3.0.0",
        }
    }
}

/// A body compression that a connection can ask for.
#[derive(Debug, Clone, Copy, PartialEq, Eq, Structural, Hash)]
pub enum Compression {
    LZ4,
    Snappy,
}

impl Compression {
    /// The canonical text of a compression.
    pub open spec fn text(self) -> Seq<char> {
        match self {
            Compression::LZ4 => "lz4"@,
            Compression::Snappy => "snappy"@,
        }
    }

    /// The canonical text of this compression.
    pub fn to_str(&self) -> (r: &'static str)
        ensures
            r@ == self.text(),
    {
        match *self {
            Compression::LZ4 => "lz4",
            Compression::Snappy => "snappy",
        }
    }
}

/// A value that can write its own wire bytes, so that a query can bind
/// values of types this library does not know. An implementation names the
/// bytes it writes as `cql_bytes` and is verified against them.
pub trait ToCql {
    /// The bytes of the value, without a length prefix, or `None` where
    /// the value has no encoding.
    spec fn cql_bytes(&self) -> Option<Seq<u8>>;

    /// Appends the bytes of the value to `buf`. A value without an encoding
    /// gives an error and leaves `buf` as it was.
    fn write(&self, buf: &mut Vec<u8>) -> (r: Result<(), WireError>)
        ensures
            match self.cql_bytes() {
                Some(bytes) => r is Ok && final(buf)@ == old(buf)@ + bytes,
                None => r is Err && final(buf)@ == old(buf)@,
            },
    ;
}

/// A value of a known scalar type.
#[derive(Debug, Clone, Copy, PartialEq, Eq, Structural)]
pub enum CqlValue {
    Int(i32),
}

impl ToCql for CqlValue {
    /// An `Int` is four big-endian bytes.
    open spec fn cql_bytes(&self) -> Option<Seq<u8>> {
        match *self {
            CqlValue::Int(v) => Some(i32_be(v)),
        }
    }

    fn write(&self, buf: &mut Vec<u8>) -> (r: Result<(), WireError>) {
        match *self {
            CqlValue::Int(v) => {
                write_i32(buf, v);
                Ok(())
            },
        }
    }
}

/// An option id with its value.
#[derive(Debug, Clone, Copy, PartialEq, Eq, Structural)]
pub struct CqlOption {
    pub id: i16,
    pub value: CqlValue,
}

/// The wire code of a type descriptor.
#[derive(Debug, Clone, Copy, PartialEq, Eq, Structural)]
pub enum CqlTypeCode {
    Custom,
    Ascii,
    Bigint,
    Blob,
    Boolean,
    Counter,
    Decimal,
    Double,
    Float,
    Int,
    Timestamp,
    Uuid,
    Varchar,
    Varint,
    TimeUuid,
    Inet,
    List,
    CqlMap,
    CqlSet,
    Udt,
    Tuple,
}

impl CqlTypeCode {
    /// The 16-bit wire code of a type code.
    pub open spec fn code(self) -> u16 {
        match self {
            CqlTypeCode::Custom => 0x0000,
            CqlTypeCode::Ascii => 0x0001,
            CqlTypeCode::Bigint => 0x0002,
            CqlTypeCode::Blob => 0x0003,
            CqlTypeCode::Boolean => 0x0004,
            CqlTypeCode::Counter => 0x0005,
            CqlTypeCode::Decimal => 0x0006,
            CqlTypeCode::Double => 0x0007,
            CqlTypeCode::Float => 0x0008,
            CqlTypeCode::Int => 0x0009,
            CqlTypeCode::Timestamp => 0x000B,
            CqlTypeCode::Uuid => 0x000C,
            CqlTypeCode::Varchar => 0x000D,
            CqlTypeCode::Varint => 0x000E,
            CqlTypeCode::TimeUuid => 0x000F,
            CqlTypeCode::Inet => 0x0010,
            CqlTypeCode::List => 0x0020,
            CqlTypeCode::CqlMap => 0x0021,
            CqlTypeCode::CqlSet => 0x0022,
            CqlTypeCode::Udt => 0x0030,
            CqlTypeCode::Tuple => 0x0031,
        }
    }

    /// The type code that a wire code stands for, if any.
    pub open spec fn of_code(code: u16) -> Result<CqlTypeCode, WireError> {
        if code == 0x0000 {
            Ok(CqlTypeCode::Custom)
        } else if code == 0x0001 {
            Ok(CqlTypeCode::Ascii)
        } else if code == 0x0002 {
            Ok(CqlTypeCode::Bigint)
        } else if code == 0x0003 {
            Ok(CqlTypeCode::Blob)
        } else if code == 0x0004 {
            Ok(CqlTypeCode::Boolean)
        } else if code == 0x0005 {
            Ok(CqlTypeCode::Counter)
        } else if code == 0x0006 {
            Ok(CqlTypeCode::Decimal)
        } else if code == 0x0007 {
            Ok(CqlTypeCode::Double)
        } else if code == 0x0008 {
            Ok(CqlTypeCode::Float)
        } else if code == 0x0009 {
            Ok(CqlTypeCode::Int)
        } else if code == 0x000B {
            Ok(CqlTypeCode::Timestamp)
        } else if code == 0x000C {
            Ok(CqlTypeCode::Uuid)
        } else if code == 0x000D {
            Ok(CqlTypeCode::Varchar)
        } else if code == 0x000E {
            Ok(CqlTypeCode::Varint)
        } else if code == 0x000F {
            Ok(CqlTypeCode::TimeUuid)
        } else if code == 0x0010 {
            Ok(CqlTypeCode::Inet)
        } else if code == 0x0020 {
            Ok(CqlTypeCode::List)
        } else if code == 0x0021 {
            Ok(CqlTypeCode::CqlMap)
        } else if code == 0x0022 {
            Ok(CqlTypeCode::CqlSet)
        } else if code == 0x0030 {
            Ok(CqlTypeCode::Udt)
        } else if code == 0x0031 {
            Ok(CqlTypeCode::Tuple)
        } else {
            Err(WireError::ProtocolViolation(code as i32))
        }
    }

    /// Whether the type that the code names carries neither a name nor
    /// other types.
    pub open spec fn is_scalar(self) -> bool {
        self != CqlTypeCode::Custom && self != CqlTypeCode::List && self != CqlTypeCode::CqlMap
            && self != CqlTypeCode::CqlSet && self != CqlTypeCode::Udt && self
            != CqlTypeCode::Tuple
    }

    /// The 16-bit wire code of this type code.
    pub fn to_code(self) -> (r: u16)
        ensures
            r == self.code(),
    {
        match self {
            CqlTypeCode::Custom => 0x0000,
            CqlTypeCode::Ascii => 0x0001,
            CqlTypeCode::Bigint => 0x0002,
            CqlTypeCode::Blob => 0x0003,
            CqlTypeCode::Boolean => 0x0004,
            CqlTypeCode::Counter => 0x0005,
            CqlTypeCode::Decimal => 0x0006,
            CqlTypeCode::Double => 0x0007,
            CqlTypeCode::Float => 0x0008,
            CqlTypeCode::Int => 0x0009,
            CqlTypeCode::Timestamp => 0x000B,
            CqlTypeCode::Uuid => 0x000C,
            CqlTypeCode::Varchar => 0x000D,
            CqlTypeCode::Varint => 0x000E,
            CqlTypeCode::TimeUuid => 0x000F,
            CqlTypeCode::Inet => 0x0010,
            CqlTypeCode::List => 0x0020,
            CqlTypeCode::CqlMap => 0x0021,
            CqlTypeCode::CqlSet => 0x0022,
            CqlTypeCode::Udt => 0x0030,
            CqlTypeCode::Tuple => 0x0031,
        }
    }

    /// Recognizes a wire code; a code that names no type is a protocol
    /// violation that carries the code.
    pub fn from_code(code: u16) -> (r: Result<CqlTypeCode, WireError>)
        ensures
            r == Self::of_code(code),
    {
        match code {
            0x0000 => Ok(CqlTypeCode::Custom),
            0x0001 => Ok(CqlTypeCode::Ascii),
            0x0002 => Ok(CqlTypeCode::Bigint),
            0x0003 => Ok(CqlTypeCode::Blob),
            0x0004 => Ok(CqlTypeCode::Boolean),
            0x0005 => Ok(CqlTypeCode::Counter),
            0x0006 => Ok(CqlTypeCode::Decimal),
            0x0007 => Ok(CqlTypeCode::Double),
            0x0008 => Ok(CqlTypeCode::Float),
            0x0009 => Ok(CqlTypeCode::Int),
            0x000B => Ok(CqlTypeCode::Timestamp),
            0x000C => Ok(CqlTypeCode::Uuid),
            0x000D => Ok(CqlTypeCode::Varchar),
            0x000E => Ok(CqlTypeCode::Varint),
            0x000F => Ok(CqlTypeCode::TimeUuid),
            0x0010 => Ok(CqlTypeCode::Inet),
            0x0020 => Ok(CqlTypeCode::List),
            0x0021 => Ok(CqlTypeCode::CqlMap),
            0x0022 => Ok(CqlTypeCode::CqlSet),
            0x0030 => Ok(CqlTypeCode::Udt),
            0x0031 => Ok(CqlTypeCode::Tuple),
            _ => Err(WireError::ProtocolViolation(code as i32)),
        }
    }
}

/// Every type code is found again from its wire code, so no two type codes
/// share one.
pub proof fn type_code_round_trip(code: CqlTypeCode)
    ensures
        CqlTypeCode::of_code(code.code()) == Ok::<CqlTypeCode, WireError>(code),
{
}

/// The type of a column or of a bound value. The collection types carry
/// the types of their elements in full.
#[derive(Debug)]
pub enum CqlType {
    Custom(String),
    Ascii,
    Bigint,
    Blob,
    Boolean,
    Counter,
    Decimal,
    Double,
    Float,
    Int,
    Timestamp,
    Uuid,
    Varchar,
    Varint,
    Timeuuid,
    Inet,
    List(Box<CqlType>),
    CqlMap(Box<CqlType>, Box<CqlType>),
    CqlSet(Box<CqlType>),
}

/// What a type is, with its texts as sequences of characters: the
/// mathematical value of a `CqlType`.
pub enum TypeModel {
    Custom(Seq<char>),
    Scalar(CqlTypeCode),
    List(Box<TypeModel>),
    MapOf(Box<TypeModel>, Box<TypeModel>),
    SetOf(Box<TypeModel>),
}

impl View for CqlType {
    type V = TypeModel;

    open spec fn view(&self) -> TypeModel {
        self.model()
    }
}

impl CqlType {
    /// The mathematical value of this type.
    pub open spec fn model(&self) -> TypeModel
        decreases self,
    {
        match self {
            CqlType::Custom(name) => TypeModel::Custom(name@),
            CqlType::Ascii => TypeModel::Scalar(CqlTypeCode::Ascii),
            CqlType::Bigint => TypeModel::Scalar(CqlTypeCode::Bigint),
            CqlType::Blob => TypeModel::Scalar(CqlTypeCode::Blob),
            CqlType::Boolean => TypeModel::Scalar(CqlTypeCode::Boolean),
            CqlType::Counter => TypeModel::Scalar(CqlTypeCode::Counter),
            CqlType::Decimal => TypeModel::Scalar(CqlTypeCode::Decimal),
            CqlType::Double => TypeModel::Scalar(CqlTypeCode::Double),
            CqlType::Float => TypeModel::Scalar(CqlTypeCode::Float),
            CqlType::Int => TypeModel::Scalar(CqlTypeCode::Int),
            CqlType::Timestamp => TypeModel::Scalar(CqlTypeCode::Timestamp),
            CqlType::Uuid => TypeModel::Scalar(CqlTypeCode::Uuid),
            CqlType::Varchar => TypeModel::Scalar(CqlTypeCode::Varchar),
            CqlType::Varint => TypeModel::Scalar(CqlTypeCode::Varint),
            CqlType::Timeuuid => TypeModel::Scalar(CqlTypeCode::TimeUuid),
            CqlType::Inet => TypeModel::Scalar(CqlTypeCode::Inet),
            CqlType::List(item) => TypeModel::List(Box::new(item.model())),
            CqlType::CqlMap(key, value) => TypeModel::MapOf(
                Box::new(key.model()),
                Box::new(value.model()),
            ),
            CqlType::CqlSet(item) => TypeModel::SetOf(Box::new(item.model())),
        }
    }
}

impl CqlType {
    /// The type without parameters that a type code names; `None` for the
    /// codes of types that carry a name or other types.
    pub fn scalar(code: CqlTypeCode) -> (r: Option<CqlType>)
        ensures
            r is Some <==> code.is_scalar(),
            r matches Some(t) ==> t@ == TypeModel::Scalar(code),
    {
        match code {
            CqlTypeCode::Ascii => Some(CqlType::Ascii),
            CqlTypeCode::Bigint => Some(CqlType::Bigint),
            CqlTypeCode::Blob => Some(CqlType::Blob),
            CqlTypeCode::Boolean => Some(CqlType::Boolean),
            CqlTypeCode::Counter => Some(CqlType::Counter),
            CqlTypeCode::Decimal => Some(CqlType::Decimal),
            CqlTypeCode::Double => Some(CqlType::Double),
            CqlTypeCode::Float => Some(CqlType::Float),
            CqlTypeCode::Int => Some(CqlType::Int),
            CqlTypeCode::Timestamp => Some(CqlType::Timestamp),
            CqlTypeCode::Uuid => Some(CqlType::Uuid),
            CqlTypeCode::Varchar => Some(CqlType::Varchar),
            CqlTypeCode::Varint => Some(CqlType::Varint),
            CqlTypeCode::TimeUuid => Some(CqlType::Timeuuid),
            CqlTypeCode::Inet => Some(CqlType::Inet),
            _ => None,
        }
    }
}

impl CqlValue {
    /// What decoding the bytes of a value of type `cqltype` gives. Only
    /// `Int` has a known layout, four big-endian bytes; every other type is
    /// refused rather than guessed at.
    pub open spec fn decoding(cqltype: TypeModel, bytes: Seq<u8>) -> Result<CqlValue, WireError> {
        match cqltype {
            TypeModel::Scalar(CqlTypeCode::Int) => if bytes.len() == 4 {
                Ok(CqlValue::Int(be_i32(bytes)))
            } else {
                Err(WireError::Malformed)
            },
            TypeModel::Scalar(code) => Err(WireError::ProtocolViolation(code.code() as i32)),
            TypeModel::Custom(_) => Err(
                WireError::ProtocolViolation(CqlTypeCode::Custom.code() as i32),
            ),
            TypeModel::List(_) => Err(WireError::ProtocolViolation(CqlTypeCode::List.code() as i32)),
            TypeModel::MapOf(_, _) => Err(
                WireError::ProtocolViolation(CqlTypeCode::CqlMap.code() as i32),
            ),
            TypeModel::SetOf(_) => Err(
                WireError::ProtocolViolation(CqlTypeCode::CqlSet.code() as i32),
            ),
        }
    }

    /// Decodes the bytes of one value of type `cqltype`.
    pub fn decode(cqltype: &CqlType, bytes: &[u8]) -> (r: Result<CqlValue, WireError>)
        ensures
            r == Self::decoding(cqltype@, bytes@),
    {
        match cqltype {
            CqlType::Int => {
                if bytes.len() != 4 {
                    return Err(WireError::Malformed);
                }
                match read_i32(bytes) {
                    Ok(v) => Ok(CqlValue::Int(v)),
                    Err(e) => Err(e),
                }
            },
            CqlType::Custom(_) => Err(WireError::ProtocolViolation(0x0000)),
            CqlType::Ascii => Err(WireError::ProtocolViolation(0x0001)),
            CqlType::Bigint => Err(WireError::ProtocolViolation(0x0002)),
            CqlType::Blob => Err(WireError::ProtocolViolation(0x0003)),
            CqlType::Boolean => Err(WireError::ProtocolViolation(0x0004)),
            CqlType::Counter => Err(WireError::ProtocolViolation(0x0005)),
            CqlType::Decimal => Err(WireError::ProtocolViolation(0x0006)),
            CqlType::Double => Err(WireError::ProtocolViolation(0x0007)),
            CqlType::Float => Err(WireError::ProtocolViolation(0x0008)),
            CqlType::Timestamp => Err(WireError::ProtocolViolation(0x000B)),
            CqlType::Uuid => Err(WireError::ProtocolViolation(0x000C)),
            CqlType::Varchar => Err(WireError::ProtocolViolation(0x000D)),
            CqlType::Varint => Err(WireError::ProtocolViolation(0x000E)),
            CqlType::Timeuuid => Err(WireError::ProtocolViolation(0x000F)),
            CqlType::Inet => Err(WireError::ProtocolViolation(0x0010)),
            CqlType::List(_) => Err(WireError::ProtocolViolation(0x0020)),
            CqlType::CqlMap(_, _) => Err(WireError::ProtocolViolation(0x0021)),
            CqlType::CqlSet(_) => Err(WireError::ProtocolViolation(0x0022)),
        }
    }
}

} // verus!
