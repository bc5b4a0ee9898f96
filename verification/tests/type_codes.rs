use cql_bridge::type_info::{ColumnType, NativeType, UdtField};

fn native(typ: NativeType) -> ColumnType {
    ColumnType::Native(typ)
}

#[test]
fn native_codes_match_the_table() {
    let table = vec![
        (NativeType::Ascii, 0x01u8),
        (NativeType::BigInt, 0x02),
        (NativeType::Blob, 0x03),
        (NativeType::Boolean, 0x04),
        (NativeType::Counter, 0x05),
        (NativeType::Decimal, 0x06),
        (NativeType::Double, 0x07),
        (NativeType::Float, 0x08),
        (NativeType::Int, 0x09),
        (NativeType::Text, 0x0A),
        (NativeType::Timestamp, 0x0B),
        (NativeType::Uuid, 0x0C),
        (NativeType::Varint, 0x0E),
        (NativeType::Timeuuid, 0x0F),
        (NativeType::Inet, 0x10),
        (NativeType::Date, 0x11),
        (NativeType::Time, 0x12),
        (NativeType::SmallInt, 0x13),
        (NativeType::TinyInt, 0x14),
        (NativeType::Duration, 0x15),
        (NativeType::Other, 0x00),
    ];
    for (typ, code) in table {
        assert_eq!(native(typ).type_code(), code);
        assert!(native(typ).type_code() < 0x20);
        assert!(!native(typ).is_frozen());
    }
}

#[test]
fn composite_codes_match_the_table() {
    let list = ColumnType::ListType { child: Box::new(native(NativeType::Int)), frozen: false };
    assert_eq!(list.type_code(), 0x20);
    let map = ColumnType::MapType {
        key: Box::new(native(NativeType::Uuid)),
        value: Box::new(native(NativeType::Text)),
        frozen: false,
    };
    assert_eq!(map.type_code(), 0x21);
    let set = ColumnType::SetType { child: Box::new(native(NativeType::Text)), frozen: true };
    assert_eq!(set.type_code(), 0x22);
    let udt = ColumnType::UserDefinedType {
        name: "point".to_string(),
        fields: Vec::new(),
        frozen: false,
    };
    assert_eq!(udt.type_code(), 0x30);
    let tuple = ColumnType::Tuple(vec![native(NativeType::Int)]);
    assert_eq!(tuple.type_code(), 0x31);
    for typ in [&list, &map, &set, &udt, &tuple] {
        assert!(typ.type_code() >= 0x20);
    }
}

#[test]
fn frozen_flag_is_reported_per_node() {
    let frozen_list =
        ColumnType::ListType { child: Box::new(native(NativeType::Int)), frozen: true };
    assert!(frozen_list.is_frozen());
    let thawed_set = ColumnType::SetType { child: Box::new(native(NativeType::Int)), frozen: false };
    assert!(!thawed_set.is_frozen());
    let frozen_map = ColumnType::MapType {
        key: Box::new(native(NativeType::Int)),
        value: Box::new(native(NativeType::Int)),
        frozen: true,
    };
    assert!(frozen_map.is_frozen());
    let frozen_udt = ColumnType::UserDefinedType {
        name: "p".to_string(),
        fields: Vec::new(),
        frozen: true,
    };
    assert!(frozen_udt.is_frozen());
    let tuple = ColumnType::Tuple(Vec::new());
    assert!(!tuple.is_frozen());
}

#[test]
fn collection_children_are_walked_in_place() {
    let list = ColumnType::ListType { child: Box::new(native(NativeType::BigInt)), frozen: false };
    assert_eq!(list.list_child().type_code(), 0x02);

    let set = ColumnType::SetType { child: Box::new(native(NativeType::Inet)), frozen: false };
    assert_eq!(set.set_child().type_code(), 0x10);

    let map = ColumnType::MapType {
        key: Box::new(native(NativeType::Uuid)),
        value: Box::new(native(NativeType::Text)),
        frozen: false,
    };
    let (key, value) = map.map_children();
    assert_eq!(key.type_code(), 0x0C);
    assert_eq!(value.type_code(), 0x0A);
}

#[test]
fn nested_trees_walk_level_by_level() {
    let inner_map = ColumnType::MapType {
        key: Box::new(native(NativeType::Uuid)),
        value: Box::new(native(NativeType::Text)),
        frozen: false,
    };
    let list_of_maps = ColumnType::ListType { child: Box::new(inner_map), frozen: true };
    assert_eq!(list_of_maps.type_code(), 0x20);
    assert!(list_of_maps.is_frozen());
    let child = list_of_maps.list_child();
    assert_eq!(child.type_code(), 0x21);
    let (key, value) = child.map_children();
    assert_eq!(key.type_code(), 0x0C);
    assert_eq!(value.type_code(), 0x0A);
}

#[test]
fn tuple_fields_are_indexed_in_order() {
    let tuple = ColumnType::Tuple(vec![
        native(NativeType::Boolean),
        native(NativeType::Double),
        native(NativeType::Timestamp),
    ]);
    assert_eq!(tuple.tuple_field_count(), 3);
    assert_eq!(tuple.tuple_field(0).type_code(), 0x04);
    assert_eq!(tuple.tuple_field(1).type_code(), 0x07);
    assert_eq!(tuple.tuple_field(2).type_code(), 0x0B);
}

#[test]
fn udt_scenario_two_fields() {
    let udt = ColumnType::UserDefinedType {
        name: "pair".to_string(),
        fields: vec![
            UdtField { name: "x".to_string(), typ: native(NativeType::Int) },
            UdtField { name: "y".to_string(), typ: native(NativeType::Text) },
        ],
        frozen: false,
    };
    assert_eq!(udt.udt_name(), "pair");
    assert_eq!(udt.udt_field_count(), 2);
    let (first_name, first_typ) = udt.udt_field(0);
    assert_eq!(first_name, "x");
    assert_eq!(first_typ.type_code(), 0x09);
    let (second_name, second_typ) = udt.udt_field(1);
    assert_eq!(second_name, "y");
    assert_eq!(second_typ.type_code(), 0x0A);
}
