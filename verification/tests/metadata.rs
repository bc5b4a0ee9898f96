use cql_bridge::errors::StreamError;
use cql_bridge::row_set::{ColumnsPtr, RowSet};
use cql_bridge::sinks::{CallbackFault, RecordingMetadataSink, RejectingMetadataSink};
use cql_bridge::type_info::{ColumnSpec, ColumnType, NativeType, UdtField};

fn column(name: &str, typ: ColumnType) -> ColumnSpec {
    ColumnSpec {
        name: name.to_string(),
        keyspace: "store".to_string(),
        table: "orders".to_string(),
        typ,
    }
}

fn mixed_columns() -> Vec<ColumnSpec> {
    vec![
        column("id", ColumnType::Native(NativeType::Uuid)),
        column(
            "tags",
            ColumnType::ListType {
                child: Box::new(ColumnType::Native(NativeType::Text)),
                frozen: true,
            },
        ),
        column(
            "address",
            ColumnType::UserDefinedType {
                name: "addr".to_string(),
                fields: vec![UdtField {
                    name: "street".to_string(),
                    typ: ColumnType::Native(NativeType::Text),
                }],
                frozen: true,
            },
        ),
        column(
            "pair",
            ColumnType::Tuple(vec![
                ColumnType::Native(NativeType::Int),
                ColumnType::Native(NativeType::Int),
            ]),
        ),
    ]
}

#[test]
fn missing_cursor_reports_error_and_writes_nothing() {
    let stream = RowSet::empty();
    let mut sink = RecordingMetadataSink::new();
    let r: Result<(), StreamError<CallbackFault>> =
        stream.fill_columns_metadata(ColumnsPtr(5), &mut sink);
    assert!(matches!(r, Err(StreamError::MissingCursor)));
    assert!(sink.records.is_empty());
}

#[test]
fn every_column_is_reported_in_order() {
    let stream = RowSet::with_columns(mixed_columns());
    let mut sink = RecordingMetadataSink::new();
    let r: Result<(), StreamError<CallbackFault>> =
        stream.fill_columns_metadata(ColumnsPtr(5), &mut sink);
    assert!(r.is_ok());
    assert_eq!(sink.records.len(), 4);
    for (i, record) in sink.records.iter().enumerate() {
        assert_eq!(record.index, i);
        assert_eq!(record.columns, ColumnsPtr(5));
        assert_eq!(record.keyspace, "store");
        assert_eq!(record.table, "orders");
    }
    assert_eq!(sink.records[0].name, "id");
    assert_eq!(sink.records[1].name, "tags");
    assert_eq!(sink.records[2].name, "address");
    assert_eq!(sink.records[3].name, "pair");
    let codes: Vec<u8> = sink.records.iter().map(|record| record.code).collect();
    assert_eq!(codes, vec![0x0C, 0x20, 0x30, 0x31]);
    let frozen: Vec<bool> = sink.records.iter().map(|record| record.frozen).collect();
    assert_eq!(frozen, vec![false, true, true, false]);
}

#[test]
fn scalars_route_through_null_handles_and_composites_through_real_ones() {
    let stream = RowSet::with_columns(mixed_columns());
    let mut sink = RecordingMetadataSink::new();
    let r: Result<(), StreamError<CallbackFault>> =
        stream.fill_columns_metadata(ColumnsPtr(0), &mut sink);
    assert!(r.is_ok());
    let handles: Vec<bool> = sink.records.iter().map(|record| record.has_type_info).collect();
    assert_eq!(handles, vec![false, true, true, true]);
    // a handle travels with a code exactly when the code is composite
    for record in &sink.records {
        assert_eq!(record.has_type_info, record.code >= 0x20);
    }
}

#[test]
fn every_native_type_routes_without_a_handle() {
    let natives = vec![
        NativeType::Ascii,
        NativeType::BigInt,
        NativeType::Blob,
        NativeType::Boolean,
        NativeType::Counter,
        NativeType::Decimal,
        NativeType::Double,
        NativeType::Float,
        NativeType::Int,
        NativeType::Text,
        NativeType::Timestamp,
        NativeType::Uuid,
        NativeType::Varint,
        NativeType::Timeuuid,
        NativeType::Inet,
        NativeType::Date,
        NativeType::Time,
        NativeType::SmallInt,
        NativeType::TinyInt,
        NativeType::Duration,
        NativeType::Other,
    ];
    let columns: Vec<ColumnSpec> =
        natives.into_iter().map(|n| column("c", ColumnType::Native(n))).collect();
    let stream = RowSet::with_columns(columns);
    let mut sink = RecordingMetadataSink::new();
    let r: Result<(), StreamError<CallbackFault>> =
        stream.fill_columns_metadata(ColumnsPtr(0), &mut sink);
    assert!(r.is_ok());
    assert_eq!(sink.records.len(), 21);
    for record in &sink.records {
        assert!(!record.has_type_info);
        assert!(record.code < 0x20);
        assert!(!record.frozen);
    }
}

#[test]
fn metadata_callback_exception_stops_iteration() {
    let stream = RowSet::with_columns(mixed_columns());
    let mut sink = RejectingMetadataSink::new(1, 99);
    let r = stream.fill_columns_metadata(ColumnsPtr(0), &mut sink);
    match r {
        Err(StreamError::Callback(fault)) => assert_eq!(fault, CallbackFault { code: 99 }),
        _ => panic!("expected the callback's own exception"),
    }
    // the failing column was reported; those after it were not
    assert_eq!(sink.records.len(), 2);
    assert_eq!(sink.records[0].name, "id");
    assert_eq!(sink.records[1].name, "tags");
}
