//! The two results that carry metadata: a set of rows and a prepared
//! statement.
use vstd::prelude::*;
use vstd::slice::slice_subrange;

use crate::responses::metadata::{
    columns_view, metadata_decoding, ColumnSpec, Metadata, MetadataModel,
};
use crate::types::CqlValue;
use crate::wire::{be_i16, be_i32, bytes_decoding, decode_bytes, opt_bytes_view, read_i16, read_i32};
use crate::WireError;

verus! {

/// The rows that a query returned. `cells` holds the raw bytes of every
/// value, row after row; a cell without bytes is a null.
#[derive(Debug)]
pub struct Rows {
    pub metadata: Metadata,
    pub rows_count: i32,
    pub cells: Vec<Option<Vec<u8>>>,
}

/// The mathematical value of a row set.
pub struct RowsModel {
    pub metadata: MetadataModel,
    pub rows_count: i32,
    pub cells: Seq<Option<Seq<u8>>>,
}

impl RowsModel {
    /// The value in the given row and column, decoded by the type of the
    /// column. Cells stand row after row, so the cell of a row and a column
    /// is found at the row's number times the column count, plus the
    /// column's number.
    pub open spec fn value_at(self, row: int, column: int) -> Result<Option<CqlValue>, WireError> {
        let index = row * self.metadata.column_count + column;
        match self.metadata.column_specs {
            Some(columns) => if 0 <= row < self.rows_count && 0 <= column
                < self.metadata.column_count && column < columns.len() && index
                < self.cells.len() {
                match self.cells[index] {
                    None => Ok(None),
                    Some(bytes) => match CqlValue::decoding(columns[column].cqltype, bytes) {
                        Ok(v) => Ok(Some(v)),
                        Err(e) => Err(e),
                    },
                }
            } else {
                Err(WireError::Malformed)
            },
            None => Err(WireError::Malformed),
        }
    }
}

/// The bytes of a list of cells.
pub open spec fn cells_view(v: Seq<Option<Vec<u8>>>) -> Seq<Option<Seq<u8>>> {
    v.map_values(|c: Option<Vec<u8>>| opt_bytes_view(c))
}

impl View for Rows {
    type V = RowsModel;

    open spec fn view(&self) -> RowsModel {
        RowsModel {
            metadata: self.metadata@,
            rows_count: self.rows_count,
            cells: cells_view(self.cells@),
        }
    }
}

/// What decoding `count` more cells gives, from offset `pos` of `bytes` and
/// after the cells in `done`: all the cells in wire order and the offset
/// behind the last, or the first error met.
pub open spec fn cells_from(bytes: Seq<u8>, pos: int, count: nat, done: Seq<Option<Seq<u8>>>) -> Result<
    (Seq<Option<Seq<u8>>>, int),
    WireError,
>
    decreases count,
{
    if count == 0 {
        Ok((done, pos))
    } else {
        match bytes_decoding(bytes.skip(pos)) {
            Err(e) => Err(e),
            Ok((cell, n)) => cells_from(bytes, pos + n, (count - 1) as nat, done.push(cell)),
        }
    }
}

/// What decoding a row set gives: a metadata block, a 32-bit row count,
/// then one cell for each column of each row. A negative row count is
/// malformed.
pub open spec fn rows_decoding(body: Seq<u8>) -> Result<RowsModel, WireError> {
    match metadata_decoding(body) {
        Err(e) => Err(e),
        Ok((metadata, n)) => if body.len() < n + 4 {
            Err(WireError::Truncated)
        } else if be_i32(body.skip(n)) < 0 {
            Err(WireError::Malformed)
        } else {
            let rows_count = be_i32(body.skip(n));
            match cells_from(
                body,
                n + 4,
                (rows_count * metadata.column_count) as nat,
                Seq::empty(),
            ) {
                Err(e) => Err(e),
                Ok((cells, end)) => Ok(RowsModel { metadata, rows_count, cells }),
            }
        },
    }
}

impl Rows {
    /// Decodes a row set.
    pub fn decode(body: &[u8]) -> (r: Result<Rows, WireError>)
        ensures
            match rows_decoding(body@) {
                Ok(model) => r matches Ok(v) && v@ == model && model.metadata.wf(),
                Err(e) => r matches Err(f) && f == e,
            },
    {
        let (metadata, n) = match Metadata::decode(body) {
            Ok(v) => v,
            Err(e) => { return Err(e); },
        };
        let rows_count: i32 = match read_i32(slice_subrange(body, n, body.len())) {
            Ok(v) => v,
            Err(e) => { return Err(e); },
        };
        if rows_count < 0 {
            return Err(WireError::Malformed);
        }
        assert(rows_count * metadata.column_count <= 0x7FFF_FFFF * 0x7FFF_FFFF
            && rows_count * metadata.column_count >= 0) by (nonlinear_arith)
            requires
                0 <= rows_count <= 0x7FFF_FFFF,
                0 <= metadata.column_count <= 0x7FFF_FFFF,
        ;
        let total: u64 = (rows_count as u64) * (metadata.column_count as u64);
        let mut cells: Vec<Option<Vec<u8>>> = Vec::new();
        let mut pos: usize = n + 4;
        let mut k: u64 = 0;
        assert(cells_view(cells@) =~= Seq::empty());
        while k < total
            invariant
                pos <= body@.len(),
                k <= total,
                metadata_decoding(body@) == Ok::<(MetadataModel, int), WireError>((metadata@, n as int)),
                metadata@.wf(),
                body@.len() >= n + 4,
                rows_count == be_i32(body@.skip(n as int)),
                rows_count >= 0,
                total == rows_count * metadata.column_count,
                cells_from(body@, pos as int, (total - k) as nat, cells_view(cells@)) == cells_from(
                    body@,
                    n + 4,
                    total as nat,
                    Seq::empty(),
                ),
            decreases total - k,
        {
            let (cell, used) = match decode_bytes(slice_subrange(body, pos, body.len())) {
                Ok(v) => v,
                Err(e) => { return Err(e); },
            };
            let ghost before = cells_view(cells@);
            cells.push(cell);
            assert(cells_view(cells@) =~= before.push(opt_bytes_view(cell)));
            pos = pos + used;
            k = k + 1;
        }
        Ok(Rows { metadata, rows_count, cells })
    }

    /// Decodes the value in the given row and column by the type of the
    /// column; a null cell gives no value. A row set that has no such cell,
    /// or no type for it, is malformed.
    pub fn value(&self, row: usize, column: usize) -> (r: Result<Option<CqlValue>, WireError>)
        ensures
            r == self@.value_at(row as int, column as int),
    {
        let columns = match &self.metadata.column_specs {
            Some(columns) => columns,
            None => { return Err(WireError::Malformed); },
        };
        if self.rows_count < 0 || self.metadata.column_count < 0 {
            return Err(WireError::Malformed);
        }
        let width: usize = self.metadata.column_count as usize;
        if row >= self.rows_count as usize || column >= width || column >= columns.len() {
            return Err(WireError::Malformed);
        }
        assert(row * width + column < 0x8000_0000 * 0x8000_0000 && row * width + column >= 0
            && row * width <= 0x8000_0000 * 0x8000_0000) by (nonlinear_arith)
            requires
                0 <= row < 0x8000_0000,
                0 <= column < width,
                width < 0x8000_0000,
        ;
        let index: u64 = (row as u64) * (width as u64) + (column as u64);
        if index >= self.cells.len() as u64 {
            return Err(WireError::Malformed);
        }
        assert(columns_view(columns@)[column as int] == columns@[column as int]@);
        assert(cells_view(self.cells@)[index as int] == opt_bytes_view(self.cells@[index as int]));
        match &self.cells[index as usize] {
            None => Ok(None),
            Some(bytes) => match CqlValue::decode(&columns[column].cqltype, bytes.as_slice()) {
                Ok(v) => Ok(Some(v)),
                Err(e) => Err(e),
            },
        }
    }

    /// The token by which the next page is asked for, if more pages remain.
    pub fn paging_state(&self) -> (r: &Option<Vec<u8>>)
        ensures
            *r == self.metadata.paging_state,
    {
        &self.metadata.paging_state
    }

    /// The column specs, unless the server left them out.
    pub fn columns(&self) -> (r: &Option<Vec<ColumnSpec>>)
        ensures
            *r == self.metadata.column_specs,
    {
        &self.metadata.column_specs
    }
}

/// A prepared statement: its id, the shape of the values to bind and the
/// shape of the rows it returns.
#[derive(Debug)]
pub struct Prepared {
    pub id: i16,
    pub metadata: Metadata,
    pub result_metadata: Metadata,
}

/// The mathematical value of a prepared statement.
pub struct PreparedModel {
    pub id: i16,
    pub metadata: MetadataModel,
    pub result_metadata: MetadataModel,
}

impl View for Prepared {
    type V = PreparedModel;

    open spec fn view(&self) -> PreparedModel {
        PreparedModel {
            id: self.id,
            metadata: self.metadata@,
            result_metadata: self.result_metadata@,
        }
    }
}

/// What decoding a prepared statement gives: a 16-bit id, the metadata of
/// the values to bind, then the metadata of the rows.
pub open spec fn prepared_decoding(body: Seq<u8>) -> Result<PreparedModel, WireError> {
    if body.len() < 2 {
        Err(WireError::Truncated)
    } else {
        match metadata_decoding(body.skip(2)) {
            Err(e) => Err(e),
            Ok((metadata, n1)) => match metadata_decoding(body.skip(2 + n1)) {
                Err(e) => Err(e),
                Ok((result_metadata, n2)) => Ok(
                    PreparedModel { id: be_i16(body), metadata, result_metadata },
                ),
            },
        }
    }
}

impl Prepared {
    /// Decodes a prepared statement.
    pub fn decode(body: &[u8]) -> (r: Result<Prepared, WireError>)
        ensures
            match prepared_decoding(body@) {
                Ok(model) => r matches Ok(v) && v@ == model && model.metadata.wf()
                    && model.result_metadata.wf(),
                Err(e) => r matches Err(f) && f == e,
            },
    {
        let id: i16 = match read_i16(body) {
            Ok(v) => v,
            Err(e) => { return Err(e); },
        };
        let (metadata, n1) = match Metadata::decode(slice_subrange(body, 2, body.len())) {
            Ok(v) => v,
            Err(e) => { return Err(e); },
        };
        let (result_metadata, _) = match Metadata::decode(
            slice_subrange(body, 2 + n1, body.len()),
        ) {
            Ok(v) => v,
            Err(e) => { return Err(e); },
        };
        Ok(Prepared { id, metadata, result_metadata })
    }
}

} // verus!
