//! The shape of a row set: its columns, their tables and types, and the
//! token by which a later page is asked for.
use vstd::prelude::*;
use vstd::slice::slice_subrange;

use crate::types::{CqlType, CqlTypeCode, TypeModel};
use crate::wire::{
    be_i32, be_u16, bytes_decoding, decode_bytes, decode_short_string, opt_bytes_view, read_i32,
    read_u16, short_string_decoding,
};
use crate::WireError;

verus! {

/// Metadata flag: one table spec stands for all columns.
pub const GLOBAL_TABLES_SPEC: i32 = 0x0001;

/// Metadata flag: more pages remain, and a paging state is given.
pub const HAS_MORE_PAGES: i32 = 0x0002;

/// Metadata flag: the column specs are left out.
pub const NO_METADATA: i32 = 0x0004;

/// The keyspace and the table that a column belongs to.
#[derive(Debug)]
pub struct TableSpec {
    pub key_space: String,
    pub table_name: String,
}

impl View for TableSpec {
    type V = (Seq<char>, Seq<char>);

    open spec fn view(&self) -> (Seq<char>, Seq<char>) {
        (self.key_space@, self.table_name@)
    }
}

/// The texts of an optional table spec.
pub open spec fn opt_table_view(t: Option<TableSpec>) -> Option<(Seq<char>, Seq<char>)> {
    match t {
        Some(spec) => Some(spec@),
        None => None,
    }
}

/// One column: its table, unless all columns share one, its name and its
/// type.
#[derive(Debug)]
pub struct ColumnSpec {
    pub table_spec: Option<TableSpec>,
    pub name: String,
    pub cqltype: CqlType,
}

/// The mathematical value of a column spec.
pub struct ColumnModel {
    pub table_spec: Option<(Seq<char>, Seq<char>)>,
    pub name: Seq<char>,
    pub cqltype: TypeModel,
}

impl View for ColumnSpec {
    type V = ColumnModel;

    open spec fn view(&self) -> ColumnModel {
        ColumnModel {
            table_spec: opt_table_view(self.table_spec),
            name: self.name@,
            cqltype: self.cqltype@,
        }
    }
}

/// The values of a list of column specs.
pub open spec fn columns_view(v: Seq<ColumnSpec>) -> Seq<ColumnModel> {
    v.map_values(|c: ColumnSpec| c@)
}

/// The shape of a row set.
#[derive(Debug)]
pub struct Metadata {
    pub column_count: i32,
    pub global_table_spec: Option<TableSpec>,
    pub column_specs: Option<Vec<ColumnSpec>>,
    pub paging_state: Option<Vec<u8>>,
}

/// The mathematical value of a metadata block.
pub struct MetadataModel {
    pub column_count: i32,
    pub global_table_spec: Option<(Seq<char>, Seq<char>)>,
    pub column_specs: Option<Seq<ColumnModel>>,
    pub paging_state: Option<Seq<u8>>,
}

impl MetadataModel {
    /// A shared table spec and a table spec of a column's own never occur
    /// together, and the column specs, where given, are as many as counted.
    pub open spec fn wf(self) -> bool {
        self.column_count >= 0 && (self.column_specs matches Some(columns) ==> columns.len()
            == self.column_count && forall|i: int|
            0 <= i < columns.len() ==> ((#[trigger] columns[i]).table_spec is Some
                <==> self.global_table_spec is None))
    }
}

impl View for Metadata {
    type V = MetadataModel;

    open spec fn view(&self) -> MetadataModel {
        MetadataModel {
            column_count: self.column_count,
            global_table_spec: opt_table_view(self.global_table_spec),
            column_specs: match self.column_specs {
                Some(columns) => Some(columns_view(columns@)),
                None => None,
            },
            paging_state: opt_bytes_view(self.paging_state),
        }
    }
}

/// What decoding a type descriptor from the front of `bytes` gives: a
/// 16-bit code, then what the code asks for. A custom type carries its
/// class name as a short string, a list or a set the type of its items, a
/// map the types of its keys and of its values. The codes of user-defined
/// types and of tuples are refused: their layout is not known here.
pub open spec fn type_decoding(bytes: Seq<u8>) -> Result<(TypeModel, int), WireError>
    decreases bytes.len(),
{
    if bytes.len() < 2 {
        Err(WireError::Truncated)
    } else {
        match CqlTypeCode::of_code(be_u16(bytes)) {
            Err(e) => Err(e),
            Ok(CqlTypeCode::Custom) => match short_string_decoding(bytes.skip(2)) {
                Err(e) => Err(e),
                Ok((name, n)) => Ok((TypeModel::Custom(name), 2 + n)),
            },
            Ok(CqlTypeCode::List) => match type_decoding(bytes.skip(2)) {
                Err(e) => Err(e),
                Ok((item, n)) => Ok((TypeModel::List(Box::new(item)), 2 + n)),
            },
            Ok(CqlTypeCode::CqlSet) => match type_decoding(bytes.skip(2)) {
                Err(e) => Err(e),
                Ok((item, n)) => Ok((TypeModel::SetOf(Box::new(item)), 2 + n)),
            },
            Ok(CqlTypeCode::CqlMap) => match type_decoding(bytes.skip(2)) {
                Err(e) => Err(e),
                Ok((key, n1)) => if 0 <= n1 && 2 + n1 <= bytes.len() {
                    match type_decoding(bytes.skip(2 + n1)) {
                        Err(e) => Err(e),
                        Ok((value, n2)) => Ok(
                            (TypeModel::MapOf(Box::new(key), Box::new(value)), 2 + n1 + n2),
                        ),
                    }
                } else {
                    Err(WireError::Truncated)
                },
            },
            Ok(code) => if code.is_scalar() {
                Ok((TypeModel::Scalar(code), 2))
            } else {
                Err(WireError::ProtocolViolation(be_u16(bytes) as i32))
            },
        }
    }
}

/// Decodes a type descriptor from the front of `bytes`; gives the type and
/// the number of bytes consumed.
pub fn decode_type(bytes: &[u8]) -> (r: Result<(CqlType, usize), WireError>)
    ensures
        match type_decoding(bytes@) {
            Ok((model, used)) => r matches Ok((t, n)) && t@ == model && n == used && n
                <= bytes@.len(),
            Err(e) => r matches Err(f) && f == e,
        },
    decreases bytes@.len(),
{
    let raw: u16 = match read_u16(bytes) {
        Ok(v) => v,
        Err(e) => { return Err(e); },
    };
    let code = match CqlTypeCode::from_code(raw) {
        Ok(v) => v,
        Err(e) => { return Err(e); },
    };
    let rest = slice_subrange(bytes, 2, bytes.len());
    match code {
        CqlTypeCode::Custom => match decode_short_string(rest) {
            Ok((name, n)) => Ok((CqlType::Custom(name), 2 + n)),
            Err(e) => Err(e),
        },
        CqlTypeCode::List => match decode_type(rest) {
            Ok((item, n)) => Ok((CqlType::List(Box::new(item)), 2 + n)),
            Err(e) => Err(e),
        },
        CqlTypeCode::CqlSet => match decode_type(rest) {
            Ok((item, n)) => Ok((CqlType::CqlSet(Box::new(item)), 2 + n)),
            Err(e) => Err(e),
        },
        CqlTypeCode::CqlMap => {
            let (key, n1) = match decode_type(rest) {
                Ok(v) => v,
                Err(e) => { return Err(e); },
            };
            let (value, n2) = match decode_type(slice_subrange(bytes, 2 + n1, bytes.len())) {
                Ok(v) => v,
                Err(e) => { return Err(e); },
            };
            Ok((CqlType::CqlMap(Box::new(key), Box::new(value)), 2 + n1 + n2))
        },
        _ => match CqlType::scalar(code) {
            Some(t) => Ok((t, 2)),
            None => Err(WireError::ProtocolViolation(raw as i32)),
        },
    }
}

/// What decoding a table spec gives: the keyspace and the table, two short
/// strings.
pub open spec fn table_spec_decoding(bytes: Seq<u8>) -> Result<
    ((Seq<char>, Seq<char>), int),
    WireError,
> {
    match short_string_decoding(bytes) {
        Err(e) => Err(e),
        Ok((key_space, n1)) => match short_string_decoding(bytes.skip(n1)) {
            Err(e) => Err(e),
            Ok((table_name, n2)) => Ok(((key_space, table_name), n1 + n2)),
        },
    }
}

/// Decodes a table spec from the front of `bytes`.
pub fn decode_table_spec(bytes: &[u8]) -> (r: Result<(TableSpec, usize), WireError>)
    ensures
        match table_spec_decoding(bytes@) {
            Ok((model, used)) => r matches Ok((t, n)) && t@ == model && n == used && n
                <= bytes@.len(),
            Err(e) => r matches Err(f) && f == e,
        },
{
    let (key_space, n1) = match decode_short_string(bytes) {
        Ok(v) => v,
        Err(e) => { return Err(e); },
    };
    let (table_name, n2) = match decode_short_string(slice_subrange(bytes, n1, bytes.len())) {
        Ok(v) => v,
        Err(e) => { return Err(e); },
    };
    Ok((TableSpec { key_space, table_name }, n1 + n2))
}

/// What decoding the table spec in front of a column gives: one where the
/// column has a table spec of its own, none and no bytes where it has not.
pub open spec fn own_table_decoding(bytes: Seq<u8>, own_table: bool) -> Result<
    (Option<(Seq<char>, Seq<char>)>, int),
    WireError,
> {
    if own_table {
        match table_spec_decoding(bytes) {
            Err(e) => Err(e),
            Ok((table, n)) => Ok((Some(table), n)),
        }
    } else {
        Ok((None, 0))
    }
}

/// Decodes the table spec in front of a column, if it has one of its own.
pub fn decode_own_table(bytes: &[u8], own_table: bool) -> (r: Result<
    (Option<TableSpec>, usize),
    WireError,
>)
    ensures
        match own_table_decoding(bytes@, own_table) {
            Ok((model, used)) => r matches Ok((t, n)) && opt_table_view(t) == model && n == used
                && n <= bytes@.len() && (t is Some <==> own_table),
            Err(e) => r matches Err(f) && f == e,
        },
{
    if own_table {
        match decode_table_spec(bytes) {
            Ok((table, n)) => Ok((Some(table), n)),
            Err(e) => Err(e),
        }
    } else {
        Ok((None, 0))
    }
}

/// What decoding a column spec gives: its table spec where it has one of
/// its own, its name as a short string, then its type descriptor.
pub open spec fn column_decoding(bytes: Seq<u8>, own_table: bool) -> Result<
    (ColumnModel, int),
    WireError,
> {
    match own_table_decoding(bytes, own_table) {
        Err(e) => Err(e),
        Ok((table_spec, n0)) => match short_string_decoding(bytes.skip(n0)) {
            Err(e) => Err(e),
            Ok((name, n1)) => match type_decoding(bytes.skip(n0 + n1)) {
                Err(e) => Err(e),
                Ok((cqltype, n2)) => Ok((ColumnModel { table_spec, name, cqltype }, n0 + n1 + n2)),
            },
        },
    }
}

/// Decodes a column spec from the front of `bytes`.
pub fn decode_column(bytes: &[u8], own_table: bool) -> (r: Result<(ColumnSpec, usize), WireError>)
    ensures
        match column_decoding(bytes@, own_table) {
            Ok((model, used)) => r matches Ok((c, n)) && c@ == model && n == used && n
                <= bytes@.len() && (c.table_spec is Some <==> own_table),
            Err(e) => r matches Err(f) && f == e,
        },
{
    let (table_spec, n0) = match decode_own_table(bytes, own_table) {
        Ok(v) => v,
        Err(e) => { return Err(e); },
    };
    let (name, n1) = match decode_short_string(slice_subrange(bytes, n0, bytes.len())) {
        Ok(v) => v,
        Err(e) => { return Err(e); },
    };
    let (cqltype, n2) = match decode_type(slice_subrange(bytes, n0 + n1, bytes.len())) {
        Ok(v) => v,
        Err(e) => { return Err(e); },
    };
    Ok((ColumnSpec { table_spec, name, cqltype }, n0 + n1 + n2))
}

/// What decoding `count` more column specs gives, from offset `pos` of
/// `bytes` and after the columns in `done`: all the columns in wire order
/// and the offset behind the last, or the first error met.
pub open spec fn columns_from(
    bytes: Seq<u8>,
    pos: int,
    count: nat,
    own_table: bool,
    done: Seq<ColumnModel>,
) -> Result<(Seq<ColumnModel>, int), WireError>
    decreases count,
{
    if count == 0 {
        Ok((done, pos))
    } else {
        match column_decoding(bytes.skip(pos), own_table) {
            Err(e) => Err(e),
            Ok((column, n)) => columns_from(
                bytes,
                pos + n,
                (count - 1) as nat,
                own_table,
                done.push(column),
            ),
        }
    }
}

/// Decodes `count` column specs that start at offset `start` of `bytes`;
/// gives them in wire order with the offset behind the last.
fn decode_columns(bytes: &[u8], start: usize, count: i32, own_table: bool) -> (r: Result<
    (Vec<ColumnSpec>, usize),
    WireError,
>)
    requires
        start <= bytes@.len(),
        count >= 0,
    ensures
        match columns_from(bytes@, start as int, count as nat, own_table, Seq::empty()) {
            Ok((model, end)) => r matches Ok((v, n)) && columns_view(v@) == model && n == end && n
                <= bytes@.len() && v@.len() == count && forall|i: int|
                0 <= i < v@.len() ==> ((#[trigger] v@[i]).table_spec is Some <==> own_table),
            Err(e) => r matches Err(f) && f == e,
        },
{
    let mut out: Vec<ColumnSpec> = Vec::new();
    let mut pos: usize = start;
    let mut i: i32 = 0;
    assert(columns_view(out@) =~= Seq::empty());
    while i < count
        invariant
            pos <= bytes@.len(),
            0 <= i <= count,
            out@.len() == i,
            forall|k: int|
                0 <= k < out@.len() ==> ((#[trigger] out@[k]).table_spec is Some <==> own_table),
            columns_from(bytes@, pos as int, (count - i) as nat, own_table, columns_view(out@))
                == columns_from(bytes@, start as int, count as nat, own_table, Seq::empty()),
        decreases count - i,
    {
        let (column, n) = match decode_column(slice_subrange(bytes, pos, bytes.len()), own_table) {
            Ok(v) => v,
            Err(e) => { return Err(e); },
        };
        let ghost before = columns_view(out@);
        out.push(column);
        assert(columns_view(out@) =~= before.push(column@));
        pos = pos + n;
        i = i + 1;
    }
    Ok((out, pos))
}

/// What decoding the paging state of a metadata block gives: a byte string
/// where the flags announce one, nothing where they do not.
pub open spec fn paging_decoding(bytes: Seq<u8>, flags: i32) -> Result<
    (Option<Seq<u8>>, int),
    WireError,
> {
    if flags & HAS_MORE_PAGES != 0 {
        bytes_decoding(bytes)
    } else {
        Ok((None, 0))
    }
}

/// Decodes the paging state of a metadata block, if the flags announce one.
pub fn decode_paging(bytes: &[u8], flags: i32) -> (r: Result<(Option<Vec<u8>>, usize), WireError>)
    ensures
        match paging_decoding(bytes@, flags) {
            Ok((value, used)) => r matches Ok((v, n)) && opt_bytes_view(v) == value && n == used
                && n <= bytes@.len(),
            Err(e) => r matches Err(f) && f == e,
        },
{
    if flags & HAS_MORE_PAGES != 0 {
        decode_bytes(bytes)
    } else {
        Ok((None, 0))
    }
}

/// What decoding a metadata block from the front of `bytes` gives: a
/// 32-bit column count and a 32-bit flags value; the paging state where
/// the flags announce one; the shared table spec where they announce one;
/// then the column specs, unless the flags say that they are left out.
/// Each column carries a table spec of its own exactly when there is no
/// shared one. A negative column count is malformed.
pub open spec fn metadata_decoding(bytes: Seq<u8>) -> Result<(MetadataModel, int), WireError> {
    if bytes.len() < 8 {
        Err(WireError::Truncated)
    } else if be_i32(bytes) < 0 {
        Err(WireError::Malformed)
    } else {
        let column_count = be_i32(bytes);
        let flags = be_i32(bytes.skip(4));
        let shared = flags & GLOBAL_TABLES_SPEC != 0;
        match paging_decoding(bytes.skip(8), flags) {
            Err(e) => Err(e),
            Ok((paging_state, n1)) => match own_table_decoding(bytes.skip(8 + n1), shared) {
                Err(e) => Err(e),
                Ok((global_table_spec, n2)) => if flags & NO_METADATA != 0 {
                    Ok(
                        (
                            MetadataModel {
                                column_count,
                                global_table_spec,
                                column_specs: None,
                                paging_state,
                            },
                            8 + n1 + n2,
                        ),
                    )
                } else {
                    match columns_from(
                        bytes,
                        8 + n1 + n2,
                        column_count as nat,
                        !shared,
                        Seq::empty(),
                    ) {
                        Err(e) => Err(e),
                        Ok((columns, end)) => Ok(
                            (
                                MetadataModel {
                                    column_count,
                                    global_table_spec,
                                    column_specs: Some(columns),
                                    paging_state,
                                },
                                end,
                            ),
                        ),
                    }
                },
            },
        }
    }
}

impl Metadata {
    /// Decodes a metadata block from the front of `bytes`; gives the block
    /// and the number of bytes consumed. The block that comes out is well
    /// formed.
    pub fn decode(bytes: &[u8]) -> (r: Result<(Metadata, usize), WireError>)
        ensures
            match metadata_decoding(bytes@) {
                Ok((model, used)) => r matches Ok((m, n)) && m@ == model && n == used && n
                    <= bytes@.len() && model.wf(),
                Err(e) => r matches Err(f) && f == e,
            },
    {
        if bytes.len() < 8 {
            return Err(WireError::Truncated);
        }
        let column_count: i32 = match read_i32(bytes) {
            Ok(v) => v,
            Err(e) => { return Err(e); },
        };
        if column_count < 0 {
            return Err(WireError::Malformed);
        }
        let flags: i32 = match read_i32(slice_subrange(bytes, 4, bytes.len())) {
            Ok(v) => v,
            Err(e) => { return Err(e); },
        };
        let shared: bool = flags & GLOBAL_TABLES_SPEC != 0;
        let (paging_state, n1) = match decode_paging(slice_subrange(bytes, 8, bytes.len()), flags) {
            Ok(v) => v,
            Err(e) => { return Err(e); },
        };
        let (global_table_spec, n2) = match decode_own_table(
            slice_subrange(bytes, 8 + n1, bytes.len()),
            shared,
        ) {
            Ok(v) => v,
            Err(e) => { return Err(e); },
        };
        if flags & NO_METADATA != 0 {
            return Ok(
                (
                    Metadata { column_count, global_table_spec, column_specs: None, paging_state },
                    8 + n1 + n2,
                ),
            );
        }
        let (columns, end) = match decode_columns(bytes, 8 + n1 + n2, column_count, !shared) {
            Ok(v) => v,
            Err(e) => { return Err(e); },
        };
        proof {
            let model = columns_view(columns@);
            assert forall|i: int| 0 <= i < model.len() implies ((#[trigger] model[i]).table_spec
                is Some <==> !shared) by {
                assert(model[i] == columns@[i]@);
                assert(columns@[i].table_spec is Some <==> !shared);
            }
        }
        Ok(
            (
                Metadata {
                    column_count,
                    global_table_spec,
                    column_specs: Some(columns),
                    paging_state,
                },
                end,
            ),
        )
    }
}

} // verus!
