//! The column-type metadata tree and its walker.
//!
//! Every result column carries a recursive description of its CQL type:
//! a native scalar, a collection (list, set or map), a tuple, or a
//! user-defined type. The tree is immutable once built; the walker only
//! narrows references into it and never copies a node. Each node maps to a
//! stable one-byte code that the host uses to pick a deserializer.

use vstd::prelude::*;

verus! {

/// A native (scalar) CQL column type. `Other` stands for any native type the
/// bridge does not support; it is reported with code 0x00.
#[derive(Clone, Copy)]
pub enum NativeType {
    Ascii,
    BigInt,
    Blob,
    Boolean,
    Counter,
    Decimal,
    Double,
    Float,
    Int,
    Text,
    Timestamp,
    Uuid,
    Varint,
    Timeuuid,
    Inet,
    Date,
    Time,
    SmallInt,
    TinyInt,
    Duration,
    Other,
}

/// One field of a user-defined type: its name and its own type tree.
pub struct UdtField {
    pub name: String,
    pub typ: ColumnType,
}

/// A node of the column-type tree.
pub enum ColumnType {
    Native(NativeType),
    ListType { child: Box<ColumnType>, frozen: bool },
    SetType { child: Box<ColumnType>, frozen: bool },
    MapType { key: Box<ColumnType>, value: Box<ColumnType>, frozen: bool },
    Tuple(Vec<ColumnType>),
    UserDefinedType { name: String, fields: Vec<UdtField>, frozen: bool },
}

/// Static metadata of one result column: its name, the keyspace and table it
/// belongs to, and its type tree.
pub struct ColumnSpec {
    pub name: String,
    pub keyspace: String,
    pub table: String,
    pub typ: ColumnType,
}

/// The stable code of a native type.
pub open spec fn native_code(native: NativeType) -> u8 {
    match native {
        NativeType::Ascii => 0x01,
        NativeType::BigInt => 0x02,
        NativeType::Blob => 0x03,
        NativeType::Boolean => 0x04,
        NativeType::Counter => 0x05,
        NativeType::Decimal => 0x06,
        NativeType::Double => 0x07,
        NativeType::Float => 0x08,
        NativeType::Int => 0x09,
        NativeType::Text => 0x0A,
        NativeType::Timestamp => 0x0B,
        NativeType::Uuid => 0x0C,
        NativeType::Varint => 0x0E,
        NativeType::Timeuuid => 0x0F,
        NativeType::Inet => 0x10,
        NativeType::Date => 0x11,
        NativeType::Time => 0x12,
        NativeType::SmallInt => 0x13,
        NativeType::TinyInt => 0x14,
        NativeType::Duration => 0x15,
        NativeType::Other => 0x00,
    }
}

/// The stable code of a column type: the native code for scalars, and a
/// dedicated code at or above 0x20 for every composite shape.
pub open spec fn code_of(typ: ColumnType) -> u8 {
    match typ {
        ColumnType::Native(native) => native_code(native),
        ColumnType::ListType { .. } => 0x20,
        ColumnType::MapType { .. } => 0x21,
        ColumnType::SetType { .. } => 0x22,
        ColumnType::UserDefinedType { .. } => 0x30,
        ColumnType::Tuple(..) => 0x31,
    }
}

/// Whether a node is a plain scalar. Scalars are reported without a type
/// handle; composites route through one.
pub open spec fn is_scalar(typ: ColumnType) -> bool {
    typ is Native
}

/// The frozen flag of a node. Only collections and user-defined types carry
/// one; every other node reports false.
pub open spec fn frozen_of(typ: ColumnType) -> bool {
    match typ {
        ColumnType::ListType { frozen, .. } => frozen,
        ColumnType::SetType { frozen, .. } => frozen,
        ColumnType::MapType { frozen, .. } => frozen,
        ColumnType::UserDefinedType { frozen, .. } => frozen,
        _ => false,
    }
}

/// The element type of a list node.
pub open spec fn list_child_of(typ: ColumnType) -> ColumnType
    recommends
        typ is ListType,
{
    match typ {
        ColumnType::ListType { child, .. } => *child,
        _ => typ,
    }
}

/// The element type of a set node.
pub open spec fn set_child_of(typ: ColumnType) -> ColumnType
    recommends
        typ is SetType,
{
    match typ {
        ColumnType::SetType { child, .. } => *child,
        _ => typ,
    }
}

/// The key type of a map node.
pub open spec fn map_key_of(typ: ColumnType) -> ColumnType
    recommends
        typ is MapType,
{
    match typ {
        ColumnType::MapType { key, .. } => *key,
        _ => typ,
    }
}

/// The value type of a map node.
pub open spec fn map_value_of(typ: ColumnType) -> ColumnType
    recommends
        typ is MapType,
{
    match typ {
        ColumnType::MapType { value, .. } => *value,
        _ => typ,
    }
}

/// The ordered field types of a tuple node.
pub open spec fn tuple_fields_of(typ: ColumnType) -> Seq<ColumnType>
    recommends
        typ is Tuple,
{
    match typ {
        ColumnType::Tuple(fields) => fields@,
        _ => Seq::empty(),
    }
}

/// The name of a user-defined type node.
pub open spec fn udt_name_of(typ: ColumnType) -> Seq<char>
    recommends
        typ is UserDefinedType,
{
    match typ {
        ColumnType::UserDefinedType { name, .. } => name@,
        _ => Seq::empty(),
    }
}

/// The ordered fields of a user-defined type node, in schema declaration
/// order.
pub open spec fn udt_fields_of(typ: ColumnType) -> Seq<UdtField>
    recommends
        typ is UserDefinedType,
{
    match typ {
        ColumnType::UserDefinedType { fields, .. } => fields@,
        _ => Seq::empty(),
    }
}

impl ColumnType {
    /// The stable one-byte code of this node.
    pub fn type_code(&self) -> (code: u8)
        ensures
            code == code_of(*self),
    {
        match self {
            ColumnType::Native(native) => match native {
                NativeType::Ascii => 0x01,
                NativeType::BigInt => 0x02,
                NativeType::Blob => 0x03,
                NativeType::Boolean => 0x04,
                NativeType::Counter => 0x05,
                NativeType::Decimal => 0x06,
                NativeType::Double => 0x07,
                NativeType::Float => 0x08,
                NativeType::Int => 0x09,
                NativeType::Text => 0x0A,
                NativeType::Timestamp => 0x0B,
                NativeType::Uuid => 0x0C,
                NativeType::Varint => 0x0E,
                NativeType::Timeuuid => 0x0F,
                NativeType::Inet => 0x10,
                NativeType::Date => 0x11,
                NativeType::Time => 0x12,
                NativeType::SmallInt => 0x13,
                NativeType::TinyInt => 0x14,
                NativeType::Duration => 0x15,
                NativeType::Other => 0x00,
            },
            ColumnType::ListType { .. } => 0x20,
            ColumnType::MapType { .. } => 0x21,
            ColumnType::SetType { .. } => 0x22,
            ColumnType::UserDefinedType { .. } => 0x30,
            ColumnType::Tuple(..) => 0x31,
        }
    }

    /// The frozen flag of this node.
    pub fn is_frozen(&self) -> (frozen: bool)
        ensures
            frozen == frozen_of(*self),
    {
        match self {
            ColumnType::ListType { frozen, .. } => *frozen,
            ColumnType::SetType { frozen, .. } => *frozen,
            ColumnType::MapType { frozen, .. } => *frozen,
            ColumnType::UserDefinedType { frozen, .. } => *frozen,
            _ => false,
        }
    }

    /// The element type of a list. The caller must have checked the code:
    /// asking a non-list node is a contract violation.
    pub fn list_child(&self) -> (child: &ColumnType)
        requires
            *self is ListType,
        ensures
            *child == list_child_of(*self),
    {
        match self {
            ColumnType::ListType { child, .. } => &**child,
            _ => vstd::pervasive::unreached(),
        }
    }

    /// The element type of a set; same contract discipline as `list_child`.
    pub fn set_child(&self) -> (child: &ColumnType)
        requires
            *self is SetType,
        ensures
            *child == set_child_of(*self),
    {
        match self {
            ColumnType::SetType { child, .. } => &**child,
            _ => vstd::pervasive::unreached(),
        }
    }

    /// The key and value types of a map, together.
    pub fn map_children(&self) -> (children: (&ColumnType, &ColumnType))
        requires
            *self is MapType,
        ensures
            *children.0 == map_key_of(*self),
            *children.1 == map_value_of(*self),
    {
        match self {
            ColumnType::MapType { key, value, .. } => (&**key, &**value),
            _ => vstd::pervasive::unreached(),
        }
    }

    /// How many fields a tuple has.
    pub fn tuple_field_count(&self) -> (count: usize)
        requires
            *self is Tuple,
        ensures
            count == tuple_fields_of(*self).len(),
    {
        match self {
            ColumnType::Tuple(fields) => fields.len(),
            _ => vstd::pervasive::unreached(),
        }
    }

    /// The type of one tuple field. The caller is expected to have read the
    /// field count first: an out-of-range index is a contract violation.
    pub fn tuple_field(&self, index: usize) -> (field: &ColumnType)
        requires
            *self is Tuple,
            index < tuple_fields_of(*self).len(),
        ensures
            *field == tuple_fields_of(*self)[index as int],
    {
        match self {
            ColumnType::Tuple(fields) => &fields[index],
            _ => vstd::pervasive::unreached(),
        }
    }

    /// The schema name of a user-defined type.
    pub fn udt_name(&self) -> (name: &String)
        requires
            *self is UserDefinedType,
        ensures
            name@ == udt_name_of(*self),
    {
        match self {
            ColumnType::UserDefinedType { name, .. } => name,
            _ => vstd::pervasive::unreached(),
        }
    }

    /// How many fields a user-defined type has.
    pub fn udt_field_count(&self) -> (count: usize)
        requires
            *self is UserDefinedType,
        ensures
            count == udt_fields_of(*self).len(),
    {
        match self {
            ColumnType::UserDefinedType { fields, .. } => fields.len(),
            _ => vstd::pervasive::unreached(),
        }
    }

    /// The name and type of one user-defined-type field, in schema
    /// declaration order.
    pub fn udt_field(&self, index: usize) -> (field: (&String, &ColumnType))
        requires
            *self is UserDefinedType,
            index < udt_fields_of(*self).len(),
        ensures
            field.0@ == udt_fields_of(*self)[index as int].name@,
            *field.1 == udt_fields_of(*self)[index as int].typ,
    {
        match self {
            ColumnType::UserDefinedType { fields, .. } => {
                let field = &fields[index];
                (&field.name, &field.typ)
            },
            _ => vstd::pervasive::unreached(),
        }
    }
}

/// Law: the code routes a node through a type handle exactly when the node is
/// composite. Every scalar's code is below 0x20 and is reported with a null
/// handle; every list, set, map, tuple and user-defined type code is at or
/// above 0x20 and is reported with a handle into the tree.
pub proof fn lemma_handle_routing(typ: ColumnType)
    ensures
        (code_of(typ) >= 0x20) <==> !is_scalar(typ),
{
    match typ {
        ColumnType::Native(native) => {
            assert(native_code(native) < 0x20) by {
                match native {
                    NativeType::Ascii => {},
                    NativeType::BigInt => {},
                    NativeType::Blob => {},
                    NativeType::Boolean => {},
                    NativeType::Counter => {},
                    NativeType::Decimal => {},
                    NativeType::Double => {},
                    NativeType::Float => {},
                    NativeType::Int => {},
                    NativeType::Text => {},
                    NativeType::Timestamp => {},
                    NativeType::Uuid => {},
                    NativeType::Varint => {},
                    NativeType::Timeuuid => {},
                    NativeType::Inet => {},
                    NativeType::Date => {},
                    NativeType::Time => {},
                    NativeType::SmallInt => {},
                    NativeType::TinyInt => {},
                    NativeType::Duration => {},
                    NativeType::Other => {},
                }
            }
        },
        _ => {},
    }
}

/// Law: the code table, written out. Each native type maps to its documented
/// code and each composite shape to its own, whatever its children are.
pub proof fn lemma_code_table()
    ensures
        native_code(NativeType::Ascii) == 0x01,
        native_code(NativeType::BigInt) == 0x02,
        native_code(NativeType::Blob) == 0x03,
        native_code(NativeType::Boolean) == 0x04,
        native_code(NativeType::Counter) == 0x05,
        native_code(NativeType::Decimal) == 0x06,
        native_code(NativeType::Double) == 0x07,
        native_code(NativeType::Float) == 0x08,
        native_code(NativeType::Int) == 0x09,
        native_code(NativeType::Text) == 0x0A,
        native_code(NativeType::Timestamp) == 0x0B,
        native_code(NativeType::Uuid) == 0x0C,
        native_code(NativeType::Varint) == 0x0E,
        native_code(NativeType::Timeuuid) == 0x0F,
        native_code(NativeType::Inet) == 0x10,
        native_code(NativeType::Date) == 0x11,
        native_code(NativeType::Time) == 0x12,
        native_code(NativeType::SmallInt) == 0x13,
        native_code(NativeType::TinyInt) == 0x14,
        native_code(NativeType::Duration) == 0x15,
        native_code(NativeType::Other) == 0x00,
        forall|typ: ColumnType| typ is ListType ==> #[trigger] code_of(typ) == 0x20,
        forall|typ: ColumnType| typ is MapType ==> #[trigger] code_of(typ) == 0x21,
        forall|typ: ColumnType| typ is SetType ==> #[trigger] code_of(typ) == 0x22,
        forall|typ: ColumnType| typ is UserDefinedType ==> #[trigger] code_of(typ) == 0x30,
        forall|typ: ColumnType| typ is Tuple ==> #[trigger] code_of(typ) == 0x31,
{
}

} // verus!
