//! Ready-made sinks: host callbacks realized in the crate itself.
//!
//! A host normally supplies its own callbacks through the `RowSink` and
//! `MetadataSink` traits. The sinks here record every invocation they
//! receive — and, on request, reject one chosen column — so the engine can
//! be driven and observed without a host.

use vstd::prelude::*;

use crate::row_set::{
    deser_call, snapshot_type, ColumnsPtr, DeserCall, MetaCall, MetadataSink, RowSink,
    SerializerPtr, ValuesPtr,
};
use crate::type_info::ColumnType;

verus! {

/// A stand-in for a host exception raised by a callback: a bare code the
/// test or host picks, carried through the engine verbatim.
#[derive(Clone, Copy, PartialEq, Eq, Structural, Debug)]
pub struct CallbackFault {
    pub code: u64,
}

/// One recorded deserializer invocation, as plain data.
pub struct DeserRecord {
    pub columns: ColumnsPtr,
    pub values: ValuesPtr,
    pub serializer: SerializerPtr,
    pub index: usize,
    pub bytes: Vec<u8>,
}

/// The ghost view of a recorded invocation.
pub open spec fn record_call(record: DeserRecord) -> DeserCall {
    deser_call(record.columns, record.values, record.serializer, record.index as int, record.bytes@)
}

fn copy_bytes(bytes: &Vec<u8>) -> (out: Vec<u8>)
    ensures
        out@ == bytes@,
{
    let mut out: Vec<u8> = Vec::new();
    let mut i: usize = 0;
    while i < bytes.len()
        invariant
            i <= bytes.len(),
            out@ == bytes@.take(i as int),
        decreases bytes.len() - i,
    {
        out.push(bytes[i]);
        proof {
            assert(out@ == bytes@.take(i + 1));
        }
        i = i + 1;
    }
    proof {
        assert(bytes@.take(bytes@.len() as int) == bytes@);
    }
    out
}

/// A deserializer that accepts every value and keeps a record of each
/// invocation.
pub struct RecordingSink {
    pub records: Vec<DeserRecord>,
}

impl RecordingSink {
    pub fn new() -> (sink: RecordingSink)
        ensures
            sink.records@.len() == 0,
    {
        RecordingSink { records: Vec::new() }
    }
}

impl<X> RowSink<X> for RecordingSink {
    open spec fn log(&self) -> Seq<DeserCall> {
        self.records@.map_values(|record: DeserRecord| record_call(record))
    }

    open spec fn accepts(&self, call: DeserCall) -> bool {
        true
    }

    open spec fn rejection(&self, call: DeserCall) -> X {
        vstd::pervasive::arbitrary()
    }

    fn deserialize(
        &mut self,
        columns: ColumnsPtr,
        values: ValuesPtr,
        index: usize,
        serializer: SerializerPtr,
        bytes: &Vec<u8>,
    ) -> (r: Result<(), X>) {
        let record = DeserRecord {
            columns,
            values,
            serializer,
            index,
            bytes: copy_bytes(bytes),
        };
        self.records.push(record);
        proof {
            assert(<Self as RowSink<X>>::log(final(self)) =~= <Self as RowSink<X>>::log(
                old(self),
            ).push(deser_call(columns, values, serializer, index as int, bytes@)));
        }
        Ok(())
    }
}

/// A deserializer that records every invocation but rejects the one at
/// `reject_index`, raising `fault`.
pub struct RejectingSink {
    pub reject_index: usize,
    pub fault: CallbackFault,
    pub records: Vec<DeserRecord>,
}

impl RejectingSink {
    pub fn new(reject_index: usize, fault_code: u64) -> (sink: RejectingSink)
        ensures
            sink.reject_index == reject_index,
            sink.fault == (CallbackFault { code: fault_code }),
            sink.records@.len() == 0,
    {
        RejectingSink {
            reject_index,
            fault: CallbackFault { code: fault_code },
            records: Vec::new(),
        }
    }
}

impl RowSink<CallbackFault> for RejectingSink {
    open spec fn log(&self) -> Seq<DeserCall> {
        self.records@.map_values(|record: DeserRecord| record_call(record))
    }

    open spec fn accepts(&self, call: DeserCall) -> bool {
        call.index != self.reject_index as int
    }

    open spec fn rejection(&self, call: DeserCall) -> CallbackFault {
        self.fault
    }

    fn deserialize(
        &mut self,
        columns: ColumnsPtr,
        values: ValuesPtr,
        index: usize,
        serializer: SerializerPtr,
        bytes: &Vec<u8>,
    ) -> (r: Result<(), CallbackFault>) {
        let record = DeserRecord {
            columns,
            values,
            serializer,
            index,
            bytes: copy_bytes(bytes),
        };
        self.records.push(record);
        proof {
            assert(final(self).log() =~= old(self).log().push(
                deser_call(columns, values, serializer, index as int, bytes@),
            ));
        }
        if index == self.reject_index {
            Err(self.fault)
        } else {
            Ok(())
        }
    }
}

/// One recorded metadata invocation, as plain data. The borrowed type handle
/// cannot be retained past the call, so only its presence is kept here; the
/// ghost log keeps the full snapshot.
pub struct MetaRecord {
    pub columns: ColumnsPtr,
    pub index: usize,
    pub name: String,
    pub keyspace: String,
    pub table: String,
    pub code: u8,
    pub has_type_info: bool,
    pub frozen: bool,
}

/// A metadata callback that accepts every column and keeps a record of each
/// invocation.
pub struct RecordingMetadataSink {
    pub records: Vec<MetaRecord>,
    pub calls: Ghost<Seq<MetaCall>>,
}

impl RecordingMetadataSink {
    pub fn new() -> (sink: RecordingMetadataSink)
        ensures
            sink.records@.len() == 0,
            sink.calls@.len() == 0,
    {
        RecordingMetadataSink { records: Vec::new(), calls: Ghost(Seq::empty()) }
    }
}

impl<X> MetadataSink<X> for RecordingMetadataSink {
    open spec fn log(&self) -> Seq<MetaCall> {
        self.calls@
    }

    open spec fn accepts(&self, call: MetaCall) -> bool {
        true
    }

    open spec fn rejection(&self, call: MetaCall) -> X {
        vstd::pervasive::arbitrary()
    }

    fn set_column(
        &mut self,
        columns: ColumnsPtr,
        index: usize,
        name: &String,
        keyspace: &String,
        table: &String,
        code: u8,
        type_info: Option<&ColumnType>,
        frozen: bool,
    ) -> (r: Result<(), X>) {
        let record = MetaRecord {
            columns,
            index,
            name: name.clone(),
            keyspace: keyspace.clone(),
            table: table.clone(),
            code,
            has_type_info: type_info.is_some(),
            frozen,
        };
        self.records.push(record);
        let ghost call = MetaCall {
            columns,
            index: index as int,
            name: name@,
            keyspace: keyspace@,
            table: table@,
            code,
            type_info: snapshot_type(type_info),
            frozen,
        };
        proof {
            self.calls@ = self.calls@.push(call);
        }
        Ok(())
    }
}

/// A metadata callback that records every invocation but rejects the one at
/// `reject_index`, raising `fault`.
pub struct RejectingMetadataSink {
    pub reject_index: usize,
    pub fault: CallbackFault,
    pub records: Vec<MetaRecord>,
    pub calls: Ghost<Seq<MetaCall>>,
}

impl RejectingMetadataSink {
    pub fn new(reject_index: usize, fault_code: u64) -> (sink: RejectingMetadataSink)
        ensures
            sink.reject_index == reject_index,
            sink.fault == (CallbackFault { code: fault_code }),
            sink.records@.len() == 0,
            sink.calls@.len() == 0,
    {
        RejectingMetadataSink {
            reject_index,
            fault: CallbackFault { code: fault_code },
            records: Vec::new(),
            calls: Ghost(Seq::empty()),
        }
    }
}

impl MetadataSink<CallbackFault> for RejectingMetadataSink {
    open spec fn log(&self) -> Seq<MetaCall> {
        self.calls@
    }

    open spec fn accepts(&self, call: MetaCall) -> bool {
        call.index != self.reject_index as int
    }

    open spec fn rejection(&self, call: MetaCall) -> CallbackFault {
        self.fault
    }

    fn set_column(
        &mut self,
        columns: ColumnsPtr,
        index: usize,
        name: &String,
        keyspace: &String,
        table: &String,
        code: u8,
        type_info: Option<&ColumnType>,
        frozen: bool,
    ) -> (r: Result<(), CallbackFault>) {
        let record = MetaRecord {
            columns,
            index,
            name: name.clone(),
            keyspace: keyspace.clone(),
            table: table.clone(),
            code,
            has_type_info: type_info.is_some(),
            frozen,
        };
        self.records.push(record);
        let ghost call = MetaCall {
            columns,
            index: index as int,
            name: name@,
            keyspace: keyspace@,
            table: table@,
            code,
            type_info: snapshot_type(type_info),
            frozen,
        };
        proof {
            self.calls@ = self.calls@.push(call);
        }
        if index == self.reject_index {
            Err(self.fault)
        } else {
            Ok(())
        }
    }
}

} // verus!
