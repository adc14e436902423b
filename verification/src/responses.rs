//! The messages a server sends, and the decoders of their bodies.
//!
//! A body decoder is handed exactly the bytes that the frame announced. It
//! reads from the front; bytes of the body that follow the message are left
//! unread and are no error. A length or count that reaches past the end of
//! the body is `Truncated`, never a request for more bytes.
use vstd::prelude::*;
use vstd::slice::slice_subrange;

use crate::frame::OpCode;
use crate::types::{Compression, CqlVersion};
use crate::wire::{
    be_i32, decode_short_string, decode_string_multimap, i32_be, i32_round_trip, multimap_view,
    read_i32, same_text, short_string_decoding, string_multimap_decoding, strings_view,
};
use crate::WireError;

pub mod metadata;
pub mod rows;

pub use metadata::{ColumnSpec, Metadata, TableSpec};
pub use rows::{Prepared, Rows};
use rows::{prepared_decoding, rows_decoding, PreparedModel, RowsModel};

verus! {

/// An error reported by the server.
#[derive(Debug)]
pub struct Error {
    pub code: i32,
    pub message: String,
}

impl View for Error {
    type V = (i32, Seq<char>);

    open spec fn view(&self) -> (i32, Seq<char>) {
        (self.code, self.message@)
    }
}

/// The server asks the client to authenticate.
#[derive(Debug)]
pub struct Authenticate {
    pub authenticator: String,
}

impl View for Authenticate {
    type V = Seq<char>;

    open spec fn view(&self) -> Seq<char> {
        self.authenticator@
    }
}

/// The keyspace that a `USE` statement selected.
#[derive(Debug)]
pub struct SetKeyspace {
    pub keyspace: String,
}

impl View for SetKeyspace {
    type V = Seq<char>;

    open spec fn view(&self) -> Seq<char> {
        self.keyspace@
    }
}

/// A change of the schema that a statement made.
#[derive(Debug)]
pub struct SchemaChange {
    pub change_type: String,
    pub target: String,
    pub options: String,
}

impl View for SchemaChange {
    type V = (Seq<char>, Seq<char>, Seq<char>);

    open spec fn view(&self) -> (Seq<char>, Seq<char>, Seq<char>) {
        (self.change_type@, self.target@, self.options@)
    }
}

/// What decoding an error body gives: a 32-bit code, then the message as a
/// short string.
pub open spec fn error_decoding(body: Seq<u8>) -> core::result::Result<(i32, Seq<char>), WireError> {
    if body.len() < 4 {
        Err(WireError::Truncated)
    } else {
        match short_string_decoding(body.skip(4)) {
            Err(e) => Err(e),
            Ok((text, used)) => Ok((be_i32(body), text)),
        }
    }
}

/// What decoding a schema change gives: three short strings in a row.
pub open spec fn schema_change_decoding(body: Seq<u8>) -> core::result::Result<
    (Seq<char>, Seq<char>, Seq<char>),
    WireError,
> {
    match short_string_decoding(body) {
        Err(e) => Err(e),
        Ok((change_type, n1)) => match short_string_decoding(body.skip(n1)) {
            Err(e) => Err(e),
            Ok((target, n2)) => match short_string_decoding(body.skip(n1 + n2)) {
                Err(e) => Err(e),
                Ok((options, n3)) => Ok((change_type, target, options)),
            },
        },
    }
}

impl Error {
    /// Decodes the body of an error message.
    pub fn decode(body: &[u8]) -> (r: core::result::Result<Error, WireError>)
        ensures
            match error_decoding(body@) {
                Ok(model) => r matches Ok(v) && v@ == model,
                Err(e) => r matches Err(f) && f == e,
            },
    {
        let code: i32 = match read_i32(body) {
            Ok(v) => v,
            Err(e) => { return Err(e); },
        };
        let rest = slice_subrange(body, 4, body.len());
        match decode_short_string(rest) {
            Ok((message, _)) => Ok(Error { code, message }),
            Err(e) => Err(e),
        }
    }
}

impl Authenticate {
    /// Decodes the body of an authenticate message: the authenticator's
    /// class name as a short string.
    pub fn decode(body: &[u8]) -> (r: core::result::Result<Authenticate, WireError>)
        ensures
            match short_string_decoding(body@) {
                Ok((text, used)) => r matches Ok(v) && v@ == text,
                Err(e) => r matches Err(f) && f == e,
            },
    {
        match decode_short_string(body) {
            Ok((authenticator, _)) => Ok(Authenticate { authenticator }),
            Err(e) => Err(e),
        }
    }
}

impl SetKeyspace {
    /// Decodes the keyspace name, a short string.
    pub fn decode(body: &[u8]) -> (r: core::result::Result<SetKeyspace, WireError>)
        ensures
            match short_string_decoding(body@) {
                Ok((text, used)) => r matches Ok(v) && v@ == text,
                Err(e) => r matches Err(f) && f == e,
            },
    {
        match decode_short_string(body) {
            Ok((keyspace, _)) => Ok(SetKeyspace { keyspace }),
            Err(e) => Err(e),
        }
    }
}

impl SchemaChange {
    /// Decodes the change type, the target and the options.
    pub fn decode(body: &[u8]) -> (r: core::result::Result<SchemaChange, WireError>)
        ensures
            match schema_change_decoding(body@) {
                Ok(model) => r matches Ok(v) && v@ == model,
                Err(e) => r matches Err(f) && f == e,
            },
    {
        let (change_type, n1) = match decode_short_string(body) {
            Ok(v) => v,
            Err(e) => { return Err(e); },
        };
        let rest = slice_subrange(body, n1, body.len());
        let (target, n2) = match decode_short_string(rest) {
            Ok(v) => v,
            Err(e) => { return Err(e); },
        };
        let rest2 = slice_subrange(body, n1 + n2, body.len());
        assert(rest2@ =~= body@.skip(n1 + n2));
        let (options, _) = match decode_short_string(rest2) {
            Ok(v) => v,
            Err(e) => { return Err(e); },
        };
        Ok(SchemaChange { change_type, target, options })
    }
}

/// The option values that the server accepts. Each list holds a value at
/// most once, in the order in which the type declares its values.
#[derive(Debug)]
pub struct Supported {
    pub cql_version: Vec<CqlVersion>,
    pub compression: Vec<Compression>,
}

impl View for Supported {
    type V = (Seq<CqlVersion>, Seq<Compression>);

    open spec fn view(&self) -> (Seq<CqlVersion>, Seq<Compression>) {
        (self.cql_version@, self.compression@)
    }
}

/// Whether the multimap lists `value` under `key`.
pub open spec fn offers(
    options: Seq<(Seq<char>, Seq<Seq<char>>)>,
    key: Seq<char>,
    value: Seq<char>,
) -> bool {
    exists|i: int|
        0 <= i < options.len() && (#[trigger] options[i]).0 == key && options[i].1.contains(value)
}

/// The supported values that a multimap of options names: the versions
/// listed under `CQL_VERSION` and the compressions listed under
/// `COMPRESSION`. Other keys, and values that name nothing known here, are
/// passed over; a key that is missing or has no values gives an empty set.
pub open spec fn supported_of(options: Seq<(Seq<char>, Seq<Seq<char>>)>) -> (
    Seq<CqlVersion>,
    Seq<Compression>,
) {
    (
        if offers(options, "CQL_VERSION"@, CqlVersion::V_3_0_0.text()) {
            seq![CqlVersion::V_3_0_0]
        } else {
            Seq::empty()
        },
        (if offers(options, "COMPRESSION"@, Compression::LZ4.text()) {
            seq![Compression::LZ4]
        } else {
            Seq::empty()
        }) + (if offers(options, "COMPRESSION"@, Compression::Snappy.text()) {
            seq![Compression::Snappy]
        } else {
            Seq::empty()
        }),
    )
}

/// Whether the list holds `value`.
fn lists(values: &Vec<String>, value: &str) -> (r: bool)
    ensures
        r == strings_view(values@).contains(value@),
{
    let mut j: usize = 0;
    while j < values.len()
        invariant
            j <= values@.len(),
            forall|k: int| 0 <= k < j ==> strings_view(values@)[k] != value@,
        decreases values@.len() - j,
    {
        if same_text(values[j].as_str(), value) {
            assert(strings_view(values@)[j as int] == value@);
            return true;
        }
        j = j + 1;
    }
    false
}

/// Whether the multimap lists `value` under `key`.
fn lists_under(options: &Vec<(String, Vec<String>)>, key: &str, value: &str) -> (r: bool)
    ensures
        r == offers(multimap_view(options@), key@, value@),
{
    let mut i: usize = 0;
    while i < options.len()
        invariant
            i <= options@.len(),
            forall|k: int|
                0 <= k < i ==> !((#[trigger] multimap_view(options@)[k]).0 == key@ && multimap_view(
                    options@,
                )[k].1.contains(value@)),
        decreases options@.len() - i,
    {
        if same_text(options[i].0.as_str(), key) && lists(&options[i].1, value) {
            assert(multimap_view(options@)[i as int].0 == key@);
            return true;
        }
        i = i + 1;
    }
    false
}

impl Supported {
    /// Decodes the body of a supported message: a string multimap of the
    /// option values that the server accepts.
    pub fn decode(body: &[u8]) -> (r: core::result::Result<Supported, WireError>)
        ensures
            match string_multimap_decoding(body@) {
                Ok((options, used)) => r matches Ok(v) && v@ == supported_of(options),
                Err(e) => r matches Err(f) && f == e,
            },
    {
        let (options, _) = match decode_string_multimap(body) {
            Ok(v) => v,
            Err(e) => { return Err(e); },
        };
        let mut cql_version: Vec<CqlVersion> = Vec::new();
        let mut compression: Vec<Compression> = Vec::new();
        if lists_under(&options, "CQL_VERSION", CqlVersion::V_3_0_0.to_str()) {
            cql_version.push(CqlVersion::V_3_0_0);
        }
        if lists_under(&options, "COMPRESSION", Compression::LZ4.to_str()) {
            compression.push(Compression::LZ4);
        }
        if lists_under(&options, "COMPRESSION", Compression::Snappy.to_str()) {
            compression.push(Compression::Snappy);
        }
        assert(cql_version@ =~= supported_of(multimap_view(options@)).0);
        assert(compression@ =~= supported_of(multimap_view(options@)).1);
        Ok(Supported { cql_version, compression })
    }
}

/// Discriminant of a result without content.
pub const KIND_VOID: i32 = 0x0001;

/// Discriminant of a set of rows.
pub const KIND_ROWS: i32 = 0x0002;

/// Discriminant of a keyspace change.
pub const KIND_SET_KEYSPACE: i32 = 0x0003;

/// Discriminant of a prepared statement.
pub const KIND_PREPARED: i32 = 0x0004;

/// Discriminant of a schema change.
pub const KIND_SCHEMA_CHANGE: i32 = 0x0005;

/// The outcome of a query, in one of five shapes.
#[derive(Debug)]
pub enum Result {
    Void,
    Rows(Rows),
    SetKeyspace(SetKeyspace),
    Prepared(Prepared),
    SchemaChange(SchemaChange),
}

/// The mathematical value of a query outcome.
pub enum ResultModel {
    Void,
    Rows(RowsModel),
    SetKeyspace(Seq<char>),
    Prepared(PreparedModel),
    SchemaChange((Seq<char>, Seq<char>, Seq<char>)),
}

impl View for Result {
    type V = ResultModel;

    open spec fn view(&self) -> ResultModel {
        match self {
            Result::Void => ResultModel::Void,
            Result::Rows(rows) => ResultModel::Rows(rows@),
            Result::SetKeyspace(keyspace) => ResultModel::SetKeyspace(keyspace@),
            Result::Prepared(prepared) => ResultModel::Prepared(prepared@),
            Result::SchemaChange(change) => ResultModel::SchemaChange(change@),
        }
    }
}

/// What decoding a result body gives: a 32-bit discriminant picks the
/// shape, and the rest of the body is decoded as that shape. A
/// discriminant that names no shape is a protocol violation that carries
/// it. Bytes behind the shape are passed over.
pub open spec fn result_decoding(body: Seq<u8>) -> core::result::Result<ResultModel, WireError> {
    if body.len() < 4 {
        Err(WireError::Truncated)
    } else if be_i32(body) == KIND_VOID {
        Ok(ResultModel::Void)
    } else if be_i32(body) == KIND_ROWS {
        match rows_decoding(body.skip(4)) {
            Ok(rows) => Ok(ResultModel::Rows(rows)),
            Err(e) => Err(e),
        }
    } else if be_i32(body) == KIND_SET_KEYSPACE {
        match short_string_decoding(body.skip(4)) {
            Ok((keyspace, used)) => Ok(ResultModel::SetKeyspace(keyspace)),
            Err(e) => Err(e),
        }
    } else if be_i32(body) == KIND_PREPARED {
        match prepared_decoding(body.skip(4)) {
            Ok(prepared) => Ok(ResultModel::Prepared(prepared)),
            Err(e) => Err(e),
        }
    } else if be_i32(body) == KIND_SCHEMA_CHANGE {
        match schema_change_decoding(body.skip(4)) {
            Ok(change) => Ok(ResultModel::SchemaChange(change)),
            Err(e) => Err(e),
        }
    } else {
        Err(WireError::ProtocolViolation(be_i32(body)))
    }
}

impl Result {
    /// Decodes the body of a result message.
    pub fn decode(body: &[u8]) -> (r: core::result::Result<Result, WireError>)
        ensures
            match result_decoding(body@) {
                Ok(model) => r matches Ok(v) && v@ == model,
                Err(e) => r matches Err(f) && f == e,
            },
    {
        let kind: i32 = match read_i32(body) {
            Ok(v) => v,
            Err(e) => { return Err(e); },
        };
        let rest = slice_subrange(body, 4, body.len());
        match kind {
            KIND_VOID => Ok(Result::Void),
            KIND_ROWS => match Rows::decode(rest) {
                Ok(rows) => Ok(Result::Rows(rows)),
                Err(e) => Err(e),
            },
            KIND_SET_KEYSPACE => match SetKeyspace::decode(rest) {
                Ok(keyspace) => Ok(Result::SetKeyspace(keyspace)),
                Err(e) => Err(e),
            },
            KIND_PREPARED => match Prepared::decode(rest) {
                Ok(prepared) => Ok(Result::Prepared(prepared)),
                Err(e) => Err(e),
            },
            KIND_SCHEMA_CHANGE => match SchemaChange::decode(rest) {
                Ok(change) => Ok(Result::SchemaChange(change)),
                Err(e) => Err(e),
            },
            _ => Err(WireError::ProtocolViolation(kind)),
        }
    }
}

/// A message from the server.
#[derive(Debug)]
pub enum Response {
    Error(Error),
    Ready,
    Authenticate(Authenticate),
    Supported(Supported),
    Result(Result),
}

/// The mathematical value of a message from the server.
pub enum ResponseModel {
    Error((i32, Seq<char>)),
    Ready,
    Authenticate(Seq<char>),
    Supported((Seq<CqlVersion>, Seq<Compression>)),
    Result(ResultModel),
}

impl View for Response {
    type V = ResponseModel;

    open spec fn view(&self) -> ResponseModel {
        match self {
            Response::Error(error) => ResponseModel::Error(error@),
            Response::Ready => ResponseModel::Ready,
            Response::Authenticate(authenticate) => ResponseModel::Authenticate(authenticate@),
            Response::Supported(supported) => ResponseModel::Supported(supported@),
            Response::Result(result) => ResponseModel::Result(result@),
        }
    }
}

/// What decoding the body of a frame with the given opcode gives. The
/// opcode picks the decoder; an opcode that no response carries is a
/// protocol violation that carries its byte. A ready message has no body,
/// and whatever its body holds is passed over.
pub open spec fn response_decoding(opcode: OpCode, body: Seq<u8>) -> core::result::Result<
    ResponseModel,
    WireError,
> {
    match opcode {
        OpCode::Error => match error_decoding(body) {
            Ok(error) => Ok(ResponseModel::Error(error)),
            Err(e) => Err(e),
        },
        OpCode::Ready => Ok(ResponseModel::Ready),
        OpCode::Authenticate => match short_string_decoding(body) {
            Ok((name, used)) => Ok(ResponseModel::Authenticate(name)),
            Err(e) => Err(e),
        },
        OpCode::Supported => match string_multimap_decoding(body) {
            Ok((options, used)) => Ok(ResponseModel::Supported(supported_of(options))),
            Err(e) => Err(e),
        },
        OpCode::Result => match result_decoding(body) {
            Ok(result) => Ok(ResponseModel::Result(result)),
            Err(e) => Err(e),
        },
        _ => Err(WireError::ProtocolViolation(opcode.byte() as i32)),
    }
}

impl Response {
    /// Decodes the body of a frame whose header carried `opcode`.
    pub fn decode(opcode: OpCode, body: &[u8]) -> (r: core::result::Result<Response, WireError>)
        ensures
            match response_decoding(opcode, body@) {
                Ok(model) => r matches Ok(v) && v@ == model,
                Err(e) => r matches Err(f) && f == e,
            },
    {
        match opcode {
            OpCode::Error => match Error::decode(body) {
                Ok(error) => Ok(Response::Error(error)),
                Err(e) => Err(e),
            },
            OpCode::Ready => Ok(Response::Ready),
            OpCode::Authenticate => match Authenticate::decode(body) {
                Ok(authenticate) => Ok(Response::Authenticate(authenticate)),
                Err(e) => Err(e),
            },
            OpCode::Supported => match Supported::decode(body) {
                Ok(supported) => Ok(Response::Supported(supported)),
                Err(e) => Err(e),
            },
            OpCode::Result => match Result::decode(body) {
                Ok(result) => Ok(Response::Result(result)),
                Err(e) => Err(e),
            },
            _ => Err(WireError::ProtocolViolation(opcode.to_byte() as i32)),
        }
    }
}

/// A body that starts with the discriminant of a void result decodes to
/// the void result, whatever bytes follow the discriminant.
pub proof fn void_result_ignores_trailing(rest: Seq<u8>)
    ensures
        result_decoding(i32_be(KIND_VOID) + rest) == Ok::<ResultModel, WireError>(
            ResultModel::Void,
        ),
        response_decoding(OpCode::Result, i32_be(KIND_VOID) + rest) == Ok::<
            ResponseModel,
            WireError,
        >(ResponseModel::Result(ResultModel::Void)),
{
    i32_round_trip(KIND_VOID, rest);
}

/// A short string that announces more bytes than the body holds is
/// truncated: a body is never read short.
pub proof fn short_body_is_truncated(body: Seq<u8>)
    requires
        body.len() >= 2,
        body.len() < 2 + crate::wire::be_u16(body),
    ensures
        short_string_decoding(body) == Err::<(Seq<char>, int), WireError>(WireError::Truncated),
        response_decoding(OpCode::Authenticate, body) == Err::<ResponseModel, WireError>(
            WireError::Truncated,
        ),
{
}

} // verus!
