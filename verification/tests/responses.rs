use cql_wire::frame::OpCode;
use cql_wire::requests::write_str;
use cql_wire::responses::metadata::{decode_column, decode_table_spec, decode_type};
use cql_wire::responses::{
    Authenticate, Error, Metadata, Prepared, Response, Result as QueryResult, Rows, SchemaChange,
    SetKeyspace, Supported,
};
use cql_wire::types::{Compression, CqlType, CqlTypeCode, CqlValue, CqlVersion};
use cql_wire::wire::{decode_bytes, decode_string_list, decode_string_multimap, same_text};
use cql_wire::WireError;

fn text(buf: &mut Vec<u8>, s: &str) {
    write_str(s, buf).unwrap();
}

fn int_column_metadata() -> Vec<u8> {
    let mut body = vec![0x00, 0x00, 0x00, 0x02, 0x00, 0x00, 0x00, 0x01];
    text(&mut body, "ks");
    text(&mut body, "t");
    text(&mut body, "a");
    body.extend_from_slice(&[0x00, 0x09]);
    text(&mut body, "b");
    body.extend_from_slice(&[0x00, 0x20, 0x00, 0x0D]);
    body
}

#[test]
fn error_body() {
    let mut body = vec![0x00, 0x00, 0x22, 0x00];
    text(&mut body, "bad query");
    let error = Error::decode(&body).unwrap();
    assert_eq!(error.code, 0x2200);
    assert_eq!(error.message, "bad query");
    assert_eq!(Error::decode(&body[..3]).err(), Some(WireError::Truncated));
    assert_eq!(Error::decode(&body[..4]).err(), Some(WireError::Truncated));
    assert_eq!(Error::decode(&body[..body.len() - 1]).err(), Some(WireError::Truncated));
    match Response::decode(OpCode::Error, &body) {
        Ok(Response::Error(e)) => {
            assert_eq!(e.code, 0x2200);
            assert_eq!(e.message, "bad query");
        }
        other => panic!("unexpected: {:?}", other),
    }
}

#[test]
fn ready_body() {
    assert!(matches!(Response::decode(OpCode::Ready, &[]), Ok(Response::Ready)));
    assert!(matches!(Response::decode(OpCode::Ready, &[1, 2, 3]), Ok(Response::Ready)));
}

#[test]
fn authenticate_body() {
    let mut body = Vec::new();
    text(&mut body, "org.example.PasswordAuthenticator");
    let auth = Authenticate::decode(&body).unwrap();
    assert_eq!(auth.authenticator, "org.example.PasswordAuthenticator");
    match Response::decode(OpCode::Authenticate, &body) {
        Ok(Response::Authenticate(a)) => {
            assert_eq!(a.authenticator, "org.example.PasswordAuthenticator")
        }
        other => panic!("unexpected: {:?}", other),
    }
    assert_eq!(Authenticate::decode(&[0x00, 0x02, 0xC3, 0x28]).err(), Some(WireError::Malformed));
}

#[test]
fn declared_length_beyond_body_is_truncated() {
    let body = [0x00u8, 0x05, b'a', b'b'];
    assert_eq!(Authenticate::decode(&body).err(), Some(WireError::Truncated));
    assert_eq!(
        Response::decode(OpCode::Authenticate, &body).err(),
        Some(WireError::Truncated)
    );
    assert_eq!(SetKeyspace::decode(&body).err(), Some(WireError::Truncated));
    assert_eq!(decode_bytes(&[0x00, 0x00, 0x00, 0x03, 1, 2]).err(), Some(WireError::Truncated));
}

#[test]
fn opcode_without_response_is_a_violation() {
    assert_eq!(
        Response::decode(OpCode::Query, &[]).err(),
        Some(WireError::ProtocolViolation(0x07))
    );
    assert_eq!(
        Response::decode(OpCode::Startup, &[]).err(),
        Some(WireError::ProtocolViolation(0x01))
    );
    assert_eq!(
        Response::decode(OpCode::AuthSuccess, &[]).err(),
        Some(WireError::ProtocolViolation(0x10))
    );
}

#[test]
fn void_result_body() {
    let body = [0x00u8, 0x00, 0x00, 0x01];
    assert!(matches!(QueryResult::decode(&body), Ok(QueryResult::Void)));
    assert!(matches!(
        Response::decode(OpCode::Result, &body),
        Ok(Response::Result(QueryResult::Void))
    ));
}

#[test]
fn void_result_passes_over_trailing_bytes() {
    let body = [0x00u8, 0x00, 0x00, 0x01, 0xDE, 0xAD];
    assert!(matches!(QueryResult::decode(&body), Ok(QueryResult::Void)));
    assert!(matches!(
        Response::decode(OpCode::Result, &body),
        Ok(Response::Result(QueryResult::Void))
    ));
}

#[test]
fn result_discriminant_errors() {
    assert_eq!(QueryResult::decode(&[0x00, 0x00, 0x00]).err(), Some(WireError::Truncated));
    assert_eq!(
        QueryResult::decode(&[0x00, 0x00, 0x00, 0x06]).err(),
        Some(WireError::ProtocolViolation(6))
    );
    assert_eq!(
        QueryResult::decode(&[0x00, 0x00, 0x00, 0x00]).err(),
        Some(WireError::ProtocolViolation(0))
    );
    assert_eq!(
        QueryResult::decode(&[0xFF, 0xFF, 0xFF, 0xFF]).err(),
        Some(WireError::ProtocolViolation(-1))
    );
}

#[test]
fn set_keyspace_result() {
    let mut body = vec![0x00, 0x00, 0x00, 0x03];
    text(&mut body, "system");
    match QueryResult::decode(&body) {
        Ok(QueryResult::SetKeyspace(k)) => assert_eq!(k.keyspace, "system"),
        other => panic!("unexpected: {:?}", other),
    }
    assert_eq!(QueryResult::decode(&body[..6]).err(), Some(WireError::Truncated));
}

#[test]
fn schema_change_result() {
    let mut body = vec![0x00, 0x00, 0x00, 0x05];
    text(&mut body, "CREATED");
    text(&mut body, "TABLE");
    text(&mut body, "ks.t");
    match QueryResult::decode(&body) {
        Ok(QueryResult::SchemaChange(c)) => {
            assert_eq!(c.change_type, "CREATED");
            assert_eq!(c.target, "TABLE");
            assert_eq!(c.options, "ks.t");
        }
        other => panic!("unexpected: {:?}", other),
    }
    let change = SchemaChange::decode(&body[4..]).unwrap();
    assert_eq!(change.target, "TABLE");
    assert_eq!(
        SchemaChange::decode(&body[4..body.len() - 1]).err(),
        Some(WireError::Truncated)
    );
}

#[test]
fn type_codes_round_trip() {
    let codes = [
        (CqlTypeCode::Custom, 0x0000u16),
        (CqlTypeCode::Ascii, 0x0001),
        (CqlTypeCode::Bigint, 0x0002),
        (CqlTypeCode::Blob, 0x0003),
        (CqlTypeCode::Boolean, 0x0004),
        (CqlTypeCode::Counter, 0x0005),
        (CqlTypeCode::Decimal, 0x0006),
        (CqlTypeCode::Double, 0x0007),
        (CqlTypeCode::Float, 0x0008),
        (CqlTypeCode::Int, 0x0009),
        (CqlTypeCode::Timestamp, 0x000B),
        (CqlTypeCode::Uuid, 0x000C),
        (CqlTypeCode::Varchar, 0x000D),
        (CqlTypeCode::Varint, 0x000E),
        (CqlTypeCode::TimeUuid, 0x000F),
        (CqlTypeCode::Inet, 0x0010),
        (CqlTypeCode::List, 0x0020),
        (CqlTypeCode::CqlMap, 0x0021),
        (CqlTypeCode::CqlSet, 0x0022),
        (CqlTypeCode::Udt, 0x0030),
        (CqlTypeCode::Tuple, 0x0031),
    ];
    for (code, raw) in codes {
        assert_eq!(code.to_code(), raw);
        assert_eq!(CqlTypeCode::from_code(raw), Ok(code));
    }
    assert_eq!(CqlTypeCode::from_code(0x000A), Err(WireError::ProtocolViolation(0x000A)));
    assert_eq!(CqlTypeCode::from_code(0x0032), Err(WireError::ProtocolViolation(0x0032)));
}

#[test]
fn scalar_type_descriptors() {
    let scalars = [
        (0x01u8, "Ascii"),
        (0x02, "Bigint"),
        (0x03, "Blob"),
        (0x04, "Boolean"),
        (0x05, "Counter"),
        (0x06, "Decimal"),
        (0x07, "Double"),
        (0x08, "Float"),
        (0x09, "Int"),
        (0x0B, "Timestamp"),
        (0x0C, "Uuid"),
        (0x0D, "Varchar"),
        (0x0E, "Varint"),
        (0x0F, "Timeuuid"),
        (0x10, "Inet"),
    ];
    for (raw, name) in scalars {
        let (t, used) = decode_type(&[0x00, raw, 0xFF]).unwrap();
        assert_eq!(format!("{:?}", t), name);
        assert_eq!(used, 2);
    }
    assert!(matches!(CqlType::scalar(CqlTypeCode::Int), Some(CqlType::Int)));
    assert!(matches!(CqlType::scalar(CqlTypeCode::TimeUuid), Some(CqlType::Timeuuid)));
    assert!(CqlType::scalar(CqlTypeCode::List).is_none());
    assert!(CqlType::scalar(CqlTypeCode::Custom).is_none());
    assert!(CqlType::scalar(CqlTypeCode::Tuple).is_none());
}

#[test]
fn nested_type_descriptors() {
    let bytes = [0x00u8, 0x21, 0x00, 0x09, 0x00, 0x20, 0x00, 0x00, 0x00, 0x01, b'x', 0x77];
    let (t, used) = decode_type(&bytes).unwrap();
    assert_eq!(used, 11);
    match t {
        CqlType::CqlMap(key, value) => {
            assert!(matches!(*key, CqlType::Int));
            match *value {
                CqlType::List(item) => match *item {
                    CqlType::Custom(name) => assert_eq!(name, "x"),
                    other => panic!("unexpected: {:?}", other),
                },
                other => panic!("unexpected: {:?}", other),
            }
        }
        other => panic!("unexpected: {:?}", other),
    }
    let (set, used) = decode_type(&[0x00, 0x22, 0x00, 0x0C]).unwrap();
    assert!(matches!(set, CqlType::CqlSet(_)));
    assert_eq!(used, 4);
}

#[test]
fn type_descriptor_errors() {
    assert_eq!(decode_type(&[0x00]).err(), Some(WireError::Truncated));
    assert_eq!(decode_type(&[0x00, 0x20]).err(), Some(WireError::Truncated));
    assert_eq!(decode_type(&[0x00, 0x21, 0x00, 0x09]).err(), Some(WireError::Truncated));
    assert_eq!(decode_type(&[0x00, 0x00, 0x00, 0x02, b'a']).err(), Some(WireError::Truncated));
    assert_eq!(decode_type(&[0x00, 0x0A]).err(), Some(WireError::ProtocolViolation(0x0A)));
    assert_eq!(decode_type(&[0x00, 0x30]).err(), Some(WireError::ProtocolViolation(0x30)));
    assert_eq!(decode_type(&[0x00, 0x31]).err(), Some(WireError::ProtocolViolation(0x31)));
    assert_eq!(
        decode_type(&[0x00, 0x20, 0x00, 0x31]).err(),
        Some(WireError::ProtocolViolation(0x31))
    );
}

#[test]
fn table_and_column_specs() {
    let mut bytes = Vec::new();
    text(&mut bytes, "ks");
    text(&mut bytes, "tbl");
    text(&mut bytes, "col");
    bytes.extend_from_slice(&[0x00, 0x02]);
    let (table, used) = decode_table_spec(&bytes).unwrap();
    assert_eq!(table.key_space, "ks");
    assert_eq!(table.table_name, "tbl");
    assert_eq!(used, 9);
    let (column, used) = decode_column(&bytes, true).unwrap();
    assert_eq!(used, bytes.len());
    assert_eq!(column.name, "col");
    assert!(matches!(column.cqltype, CqlType::Bigint));
    let own = column.table_spec.unwrap();
    assert_eq!(own.key_space, "ks");
    assert_eq!(own.table_name, "tbl");
    let (bare, used) = decode_column(&bytes[9..], false).unwrap();
    assert_eq!(used, 7);
    assert!(bare.table_spec.is_none());
    assert_eq!(bare.name, "col");
}

#[test]
fn metadata_with_shared_table() {
    let body = int_column_metadata();
    let (metadata, used) = Metadata::decode(&body).unwrap();
    assert_eq!(used, body.len());
    assert_eq!(metadata.column_count, 2);
    assert!(metadata.paging_state.is_none());
    let table = metadata.global_table_spec.unwrap();
    assert_eq!(table.key_space, "ks");
    assert_eq!(table.table_name, "t");
    let columns = metadata.column_specs.unwrap();
    assert_eq!(columns.len(), 2);
    assert_eq!(columns[0].name, "a");
    assert!(columns[0].table_spec.is_none());
    assert!(matches!(columns[0].cqltype, CqlType::Int));
    assert_eq!(columns[1].name, "b");
    assert!(columns[1].table_spec.is_none());
    assert_eq!(format!("{:?}", columns[1].cqltype), "List(Varchar)");
}

#[test]
fn metadata_with_own_tables_and_paging() {
    let mut body = vec![0x00, 0x00, 0x00, 0x01, 0x00, 0x00, 0x00, 0x02];
    body.extend_from_slice(&[0x00, 0x00, 0x00, 0x02, 0xAB, 0xCD]);
    text(&mut body, "ks");
    text(&mut body, "t");
    text(&mut body, "a");
    body.extend_from_slice(&[0x00, 0x04]);
    body.push(0x99);
    let (metadata, used) = Metadata::decode(&body).unwrap();
    assert_eq!(used, body.len() - 1);
    assert_eq!(metadata.paging_state, Some(vec![0xAB, 0xCD]));
    assert!(metadata.global_table_spec.is_none());
    let columns = metadata.column_specs.unwrap();
    assert_eq!(columns.len(), 1);
    let own = columns[0].table_spec.as_ref().unwrap();
    assert_eq!(own.key_space, "ks");
    assert_eq!(own.table_name, "t");
    assert!(matches!(columns[0].cqltype, CqlType::Boolean));
}

#[test]
fn metadata_without_columns() {
    let body = [0x00u8, 0x00, 0x00, 0x03, 0x00, 0x00, 0x00, 0x04];
    let (metadata, used) = Metadata::decode(&body).unwrap();
    assert_eq!(used, 8);
    assert_eq!(metadata.column_count, 3);
    assert!(metadata.column_specs.is_none());
    assert!(metadata.global_table_spec.is_none());
    assert!(metadata.paging_state.is_none());
}

#[test]
fn metadata_errors() {
    assert_eq!(Metadata::decode(&[0, 0, 0, 1, 0, 0, 0]).err(), Some(WireError::Truncated));
    assert_eq!(
        Metadata::decode(&[0xFF, 0xFF, 0xFF, 0xFF, 0, 0, 0, 0]).err(),
        Some(WireError::Malformed)
    );
    assert_eq!(Metadata::decode(&[0, 0, 0, 1, 0, 0, 0, 0]).err(), Some(WireError::Truncated));
    assert_eq!(Metadata::decode(&[0, 0, 0, 0, 0, 0, 0, 2, 0, 0]).err(), Some(WireError::Truncated));
    let body = int_column_metadata();
    assert_eq!(Metadata::decode(&body[..body.len() - 1]).err(), Some(WireError::Truncated));
    let (empty, used) = Metadata::decode(&[0, 0, 0, 0, 0, 0, 0, 0]).unwrap();
    assert_eq!(used, 8);
    assert_eq!(empty.column_specs.map(|c| c.len()), Some(0));
}

#[test]
fn rows_result() {
    let mut body = vec![0x00, 0x00, 0x00, 0x02];
    body.extend_from_slice(&int_column_metadata());
    body.extend_from_slice(&[0x00, 0x00, 0x00, 0x01]);
    body.extend_from_slice(&[0x00, 0x00, 0x00, 0x04, 0x00, 0x00, 0x00, 0x2A]);
    body.extend_from_slice(&[0xFF, 0xFF, 0xFF, 0xFF]);
    match QueryResult::decode(&body) {
        Ok(QueryResult::Rows(rows)) => {
            assert_eq!(rows.rows_count, 1);
            assert_eq!(rows.metadata.column_count, 2);
            assert_eq!(rows.cells, vec![Some(vec![0x00, 0x00, 0x00, 0x2A]), None]);
            assert!(rows.paging_state().is_none());
            let columns = rows.columns().as_ref().unwrap();
            assert_eq!(columns.len(), 2);
            let cell = rows.cells[0].as_ref().unwrap();
            assert_eq!(CqlValue::decode(&columns[0].cqltype, cell), Ok(CqlValue::Int(42)));
            assert_eq!(
                CqlValue::decode(&columns[1].cqltype, cell),
                Err(WireError::ProtocolViolation(0x20))
            );
        }
        other => panic!("unexpected: {:?}", other),
    }
    assert_eq!(Rows::decode(&body[4..body.len() - 1]).err(), Some(WireError::Truncated));
    assert_eq!(Rows::decode(&body[4..body.len() - 4]).err(), Some(WireError::Truncated));
}

#[test]
fn rows_count_errors() {
    let mut body = int_column_metadata();
    assert_eq!(Rows::decode(&body).err(), Some(WireError::Truncated));
    body.extend_from_slice(&[0xFF, 0xFF, 0xFF, 0xFE]);
    assert_eq!(Rows::decode(&body).err(), Some(WireError::Malformed));
    let mut none = int_column_metadata();
    none.extend_from_slice(&[0x00, 0x00, 0x00, 0x00]);
    let rows = Rows::decode(&none).unwrap();
    assert_eq!(rows.rows_count, 0);
    assert!(rows.cells.is_empty());
}

#[test]
fn prepared_result() {
    let mut body = vec![0x00, 0x00, 0x00, 0x04, 0x00, 0x05];
    body.extend_from_slice(&int_column_metadata());
    body.extend_from_slice(&[0x00, 0x00, 0x00, 0x00, 0x00, 0x00, 0x00, 0x04]);
    match QueryResult::decode(&body) {
        Ok(QueryResult::Prepared(prepared)) => {
            assert_eq!(prepared.id, 5);
            assert_eq!(prepared.metadata.column_count, 2);
            assert_eq!(prepared.metadata.column_specs.map(|c| c.len()), Some(2));
            assert_eq!(prepared.result_metadata.column_count, 0);
            assert!(prepared.result_metadata.column_specs.is_none());
        }
        other => panic!("unexpected: {:?}", other),
    }
    assert_eq!(Prepared::decode(&[0x00]).err(), Some(WireError::Truncated));
    assert_eq!(Prepared::decode(&body[4..body.len() - 1]).err(), Some(WireError::Truncated));
}

#[test]
fn value_decoding() {
    assert_eq!(CqlValue::decode(&CqlType::Int, &[0xFF, 0xFF, 0xFF, 0xFE]), Ok(CqlValue::Int(-2)));
    assert_eq!(CqlValue::decode(&CqlType::Int, &[0, 0, 1]), Err(WireError::Malformed));
    assert_eq!(CqlValue::decode(&CqlType::Int, &[0, 0, 0, 0, 1]), Err(WireError::Malformed));
    assert_eq!(
        CqlValue::decode(&CqlType::Varchar, &[b'a']),
        Err(WireError::ProtocolViolation(0x0D))
    );
    assert_eq!(
        CqlValue::decode(&CqlType::Custom("x".to_string()), &[]),
        Err(WireError::ProtocolViolation(0x00))
    );
    assert_eq!(
        CqlValue::decode(&CqlType::CqlSet(Box::new(CqlType::Int)), &[]),
        Err(WireError::ProtocolViolation(0x22))
    );
}

#[test]
fn byte_strings() {
    let (value, used) = decode_bytes(&[0x00, 0x00, 0x00, 0x02, 7, 8, 9]).unwrap();
    assert_eq!(value, Some(vec![7, 8]));
    assert_eq!(used, 6);
    let (null, used) = decode_bytes(&[0xFF, 0xFF, 0xFF, 0xFF, 1]).unwrap();
    assert_eq!(null, None);
    assert_eq!(used, 4);
    let (empty, used) = decode_bytes(&[0x00, 0x00, 0x00, 0x00]).unwrap();
    assert_eq!(empty, Some(Vec::new()));
    assert_eq!(used, 4);
    assert_eq!(decode_bytes(&[0, 0, 0]).err(), Some(WireError::Truncated));
}

fn supported_body() -> Vec<u8> {
    let mut body = vec![0x00, 0x03];
    text(&mut body, "COMPRESSION");
    body.extend_from_slice(&[0x00, 0x03]);
    text(&mut body, "snappy");
    text(&mut body, "zstd");
    text(&mut body, "lz4");
    text(&mut body, "CQL_VERSION");
    body.extend_from_slice(&[0x00, 0x02]);
    text(&mut body, "3.1.0");
    text(&mut body, "3.0.0");
    text(&mut body, "OTHER");
    body.extend_from_slice(&[0x00, 0x01]);
    text(&mut body, "lz4");
    body
}

#[test]
fn supported_options() {
    let body = supported_body();
    let supported = Supported::decode(&body).unwrap();
    assert_eq!(supported.cql_version, vec![CqlVersion::V_3_0_0]);
    assert_eq!(supported.compression, vec![Compression::LZ4, Compression::Snappy]);
    assert!(matches!(Response::decode(OpCode::Supported, &body), Ok(Response::Supported(_))));
    assert_eq!(Supported::decode(&body[..body.len() - 1]).err(), Some(WireError::Truncated));
}

#[test]
fn supported_options_may_be_empty() {
    let none = Supported::decode(&[0x00, 0x00]).unwrap();
    assert!(none.cql_version.is_empty());
    assert!(none.compression.is_empty());

    let mut body = vec![0x00, 0x02];
    text(&mut body, "CQL_VERSION");
    body.extend_from_slice(&[0x00, 0x00]);
    text(&mut body, "COMPRESSION");
    body.extend_from_slice(&[0x00, 0x01]);
    text(&mut body, "snappy");
    let some = Supported::decode(&body).unwrap();
    assert!(some.cql_version.is_empty());
    assert_eq!(some.compression, vec![Compression::Snappy]);

    let mut swapped = vec![0x00, 0x01];
    text(&mut swapped, "COMPRESSION");
    swapped.extend_from_slice(&[0x00, 0x01]);
    text(&mut swapped, "3.0.0");
    let wrong_key = Supported::decode(&swapped).unwrap();
    assert!(wrong_key.cql_version.is_empty());
    assert!(wrong_key.compression.is_empty());
}

#[test]
fn string_lists_and_multimaps() {
    let body = supported_body();
    let (entries, used) = decode_string_multimap(&body).unwrap();
    assert_eq!(used, body.len());
    assert_eq!(entries.len(), 3);
    assert_eq!(entries[0].0, "COMPRESSION");
    assert_eq!(entries[0].1, vec!["snappy", "zstd", "lz4"]);
    assert_eq!(entries[1].0, "CQL_VERSION");
    assert_eq!(entries[1].1, vec!["3.1.0", "3.0.0"]);
    assert_eq!(entries[2].1, vec!["lz4"]);
    let (list, used) = decode_string_list(&[0x00, 0x01, 0x00, 0x01, b'z', 0x00]).unwrap();
    assert_eq!(list, vec!["z"]);
    assert_eq!(used, 5);
    assert_eq!(decode_string_list(&[0x00, 0x02, 0x00, 0x01, b'z']).err(), Some(WireError::Truncated));
    assert_eq!(decode_string_multimap(&[0x00]).err(), Some(WireError::Truncated));
}

#[test]
fn text_comparison() {
    assert!(same_text("lz4", "lz4"));
    assert!(same_text("", ""));
    assert!(!same_text("lz4", "lz5"));
    assert!(!same_text("lz4", "lz"));
    assert!(!same_text("", "a"));
    assert!(same_text("gr\u{fc}n", "gr\u{fc}n"));
}

#[test]
fn typed_cells() {
    let mut body = int_column_metadata();
    body.extend_from_slice(&[0x00, 0x00, 0x00, 0x02]);
    body.extend_from_slice(&[0x00, 0x00, 0x00, 0x04, 0x00, 0x00, 0x00, 0x2A]);
    body.extend_from_slice(&[0xFF, 0xFF, 0xFF, 0xFF]);
    body.extend_from_slice(&[0x00, 0x00, 0x00, 0x04, 0xFF, 0xFF, 0xFF, 0xFF]);
    body.extend_from_slice(&[0x00, 0x00, 0x00, 0x01, 0x61]);
    let rows = Rows::decode(&body).unwrap();
    assert_eq!(rows.cells.len(), 4);
    assert_eq!(rows.value(0, 0), Ok(Some(CqlValue::Int(42))));
    assert_eq!(rows.value(0, 1), Ok(None));
    assert_eq!(rows.value(1, 0), Ok(Some(CqlValue::Int(-1))));
    assert_eq!(rows.value(1, 1), Err(WireError::ProtocolViolation(0x20)));
    assert_eq!(rows.value(2, 0), Err(WireError::Malformed));
    assert_eq!(rows.value(0, 2), Err(WireError::Malformed));

    let mut short = int_column_metadata();
    short.extend_from_slice(&[0x00, 0x00, 0x00, 0x01]);
    short.extend_from_slice(&[0x00, 0x00, 0x00, 0x02, 0x00, 0x2A]);
    short.extend_from_slice(&[0xFF, 0xFF, 0xFF, 0xFF]);
    let rows = Rows::decode(&short).unwrap();
    assert_eq!(rows.value(0, 0), Err(WireError::Malformed));

    let bare = [0x00u8, 0x00, 0x00, 0x01, 0x00, 0x00, 0x00, 0x04, 0x00, 0x00, 0x00, 0x01, 0xFF, 0xFF, 0xFF, 0xFF];
    let rows = Rows::decode(&bare).unwrap();
    assert_eq!(rows.cells, vec![None]);
    assert_eq!(rows.value(0, 0), Err(WireError::Malformed));
}
