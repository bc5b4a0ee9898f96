//! The row-streaming engine.
//!
//! A `RowSet` wraps one query's paged result. The cursor itself does network
//! I/O and lives with the driver outside this crate; the engine here is the
//! decision core: the host's bridge fetches the next row (blocking on the
//! driver) and hands the outcome in as a plain `FetchOutcome` value, and the
//! engine decides what the caller observes — which deserialization callbacks
//! run, in what order, with what bytes, and which result or error comes back.
//! The `&mut` receiver is the exclusive access the cursor needs: the bridge
//! holds the stream behind one lock, so concurrent callers queue and each
//! fetched row is delivered exactly once.

use vstd::prelude::*;

use crate::errors::StreamError;
use crate::type_info::{code_of, frozen_of, ColumnSpec, ColumnType};

verus! {

/// An opaque token for the host's column-metadata array. The engine never
/// reads it; it is handed back verbatim to every callback.
#[derive(Clone, Copy, PartialEq, Eq, Structural, Debug)]
pub struct ColumnsPtr(pub u64);

/// An opaque token for the host's row-values array, handed back verbatim.
#[derive(Clone, Copy, PartialEq, Eq, Structural, Debug)]
pub struct ValuesPtr(pub u64);

/// An opaque token for the host's deserializer context, handed back verbatim.
#[derive(Clone, Copy, PartialEq, Eq, Structural, Debug)]
pub struct SerializerPtr(pub u64);

/// The record of one deserialization-callback invocation: the three tokens
/// handed through, the column index, and the raw bytes delivered.
pub struct DeserCall {
    pub columns: ColumnsPtr,
    pub values: ValuesPtr,
    pub serializer: SerializerPtr,
    pub index: int,
    pub bytes: Seq<u8>,
}

/// The record of one metadata-callback invocation: everything the engine
/// reports about one column. `type_info` is the borrowed type handle: present
/// exactly for composite codes, absent for scalars.
pub struct MetaCall {
    pub columns: ColumnsPtr,
    pub index: int,
    pub name: Seq<char>,
    pub keyspace: Seq<char>,
    pub table: Seq<char>,
    pub code: u8,
    pub type_info: Option<ColumnType>,
    pub frozen: bool,
}

pub open spec fn deser_call(
    columns: ColumnsPtr,
    values: ValuesPtr,
    serializer: SerializerPtr,
    index: int,
    bytes: Seq<u8>,
) -> DeserCall {
    DeserCall { columns, values, serializer, index, bytes }
}

/// The ghost snapshot of a borrowed type handle.
pub open spec fn snapshot_type(type_info: Option<&ColumnType>) -> Option<ColumnType> {
    match type_info {
        Some(typ) => Some(*typ),
        None => None,
    }
}

/// The host's per-column deserialization callback, as the engine sees it.
///
/// `log` is the sink's own record of every invocation made on it, in order.
/// `accepts` says which invocations the callback answers without raising, and
/// `rejection` which exception it raises otherwise; both are fixed across
/// calls, so one row's outcome is a function of the row alone.
pub trait RowSink<X> {
    spec fn log(&self) -> Seq<DeserCall>;

    spec fn accepts(&self, call: DeserCall) -> bool;

    spec fn rejection(&self, call: DeserCall) -> X;

    /// Deserializes the raw bytes of the column at `index` into the host's
    /// row buffer, or raises a host exception.
    fn deserialize(
        &mut self,
        columns: ColumnsPtr,
        values: ValuesPtr,
        index: usize,
        serializer: SerializerPtr,
        bytes: &Vec<u8>,
    ) -> (r: Result<(), X>)
        ensures
            final(self).log() == old(self).log().push(
                deser_call(columns, values, serializer, index as int, bytes@),
            ),
            r is Ok <==> old(self).accepts(
                deser_call(columns, values, serializer, index as int, bytes@),
            ),
            r matches Err(raised) ==> raised == old(self).rejection(
                deser_call(columns, values, serializer, index as int, bytes@),
            ),
            forall|call: DeserCall| final(self).accepts(call) == old(self).accepts(call),
            forall|call: DeserCall| final(self).rejection(call) == old(self).rejection(call),
    ;
}

/// The host's per-column metadata callback, with the same discipline as
/// `RowSink`.
pub trait MetadataSink<X> {
    spec fn log(&self) -> Seq<MetaCall>;

    spec fn accepts(&self, call: MetaCall) -> bool;

    spec fn rejection(&self, call: MetaCall) -> X;

    /// Stores one column's metadata in the host's column array, or raises a
    /// host exception. The type handle is borrowed and valid only for this
    /// call.
    fn set_column(
        &mut self,
        columns: ColumnsPtr,
        index: usize,
        name: &String,
        keyspace: &String,
        table: &String,
        code: u8,
        type_info: Option<&ColumnType>,
        frozen: bool,
    ) -> (r: Result<(), X>)
        ensures
            final(self).log() == old(self).log().push(
                (MetaCall {
                    columns,
                    index: index as int,
                    name: name@,
                    keyspace: keyspace@,
                    table: table@,
                    code,
                    type_info: snapshot_type(type_info),
                    frozen,
                }),
            ),
            r is Ok <==> old(self).accepts(
                (MetaCall {
                    columns,
                    index: index as int,
                    name: name@,
                    keyspace: keyspace@,
                    table: table@,
                    code,
                    type_info: snapshot_type(type_info),
                    frozen,
                }),
            ),
            r matches Err(raised) ==> raised == old(self).rejection(
                (MetaCall {
                    columns,
                    index: index as int,
                    name: name@,
                    keyspace: keyspace@,
                    table: table@,
                    code,
                    type_info: snapshot_type(type_info),
                    frozen,
                }),
            ),
            forall|call: MetaCall| final(self).accepts(call) == old(self).accepts(call),
            forall|call: MetaCall| final(self).rejection(call) == old(self).rejection(call),
    ;
}

/// One raw column value as the cursor yielded it: null, present bytes, or a
/// value the driver could not read from the page frame.
pub enum RawValue {
    Null,
    Bytes(Vec<u8>),
    Corrupt(String),
}

/// What one blocking fetch of the cursor produced: the next row's raw
/// values, the end of the stream, or a transport failure.
pub enum FetchOutcome {
    Row(Vec<RawValue>),
    End,
    Failed(String),
}

/// One query's paged result stream. A stream either owns a cursor — then it
/// carries the columns' metadata and an exhaustion flag — or was deliberately
/// created cursor-less (a statement with no rows) and is permanently empty.
pub struct RowSet {
    pub has_cursor: bool,
    pub columns: Vec<ColumnSpec>,
    pub exhausted: bool,
}

impl RowSet {
    /// The column metadata the stream describes: empty without a cursor.
    pub open spec fn spec_columns(self) -> Seq<ColumnSpec> {
        if self.has_cursor {
            self.columns@
        } else {
            Seq::empty()
        }
    }

    /// Whether the stream can still deliver rows.
    pub open spec fn live(self) -> bool {
        self.has_cursor && !self.exhausted
    }

    /// A deliberately empty stream: no cursor, no columns, no rows, ever.
    pub fn empty() -> (stream: RowSet)
        ensures
            !stream.has_cursor,
            !stream.exhausted,
            stream.spec_columns() == Seq::<ColumnSpec>::empty(),
    {
        RowSet { has_cursor: false, columns: Vec::new(), exhausted: false }
    }

    /// A stream over a fresh cursor with the given column metadata.
    pub fn with_columns(columns: Vec<ColumnSpec>) -> (stream: RowSet)
        ensures
            stream.has_cursor,
            !stream.exhausted,
            stream.spec_columns() == columns@,
    {
        RowSet { has_cursor: true, columns, exhausted: false }
    }

    /// How many columns the stream's metadata declares; 0 without a cursor.
    /// No side effects, no blocking.
    pub fn columns_count(&self) -> (count: usize)
        ensures
            count == self.spec_columns().len(),
    {
        if self.has_cursor {
            self.columns.len()
        } else {
            0
        }
    }

    /// Whether a `next_row` call needs a fetch outcome from the cursor. The
    /// bridge asks this before blocking on the driver; for a stream that is
    /// cursor-less or exhausted any placeholder outcome may be passed, the
    /// engine ignores it.
    pub fn wants_fetch(&self) -> (wants: bool)
        ensures
            wants == self.live(),
    {
        self.has_cursor && !self.exhausted
    }

    /// Reports every column's metadata to the host's callback, in declaration
    /// order. For the column at index `i` the callback receives the column's
    /// name, keyspace, table, code, frozen flag, and — exactly when the code
    /// is composite — a borrowed handle to its type tree. A callback that
    /// raises stops the iteration at once and its exception is propagated
    /// verbatim; the columns already reported stay written. A cursor-less
    /// stream fails with `MissingCursor` before any callback runs.
    pub fn fill_columns_metadata<X, S: MetadataSink<X>>(
        &self,
        columns_ptr: ColumnsPtr,
        sink: &mut S,
    ) -> (r: Result<(), StreamError<X>>)
        ensures
            !self.has_cursor ==> r == Err::<(), StreamError<X>>(StreamError::MissingCursor)
                && final(sink).log() == old(sink).log(),
            self.has_cursor ==> match meta_stop_from(
                *old(sink),
                columns_ptr,
                self.spec_columns(),
                0,
            ) {
                None => r is Ok && final(sink).log() == old(sink).log() + meta_calls_prefix(
                    columns_ptr,
                    self.spec_columns(),
                    self.spec_columns().len() as int,
                ),
                Some(j) => {
                    &&& r == Err::<(), StreamError<X>>(
                        StreamError::Callback(
                            old(sink).rejection(meta_call_at(columns_ptr, self.spec_columns(), j)),
                        ),
                    )
                    &&& final(sink).log() == old(sink).log() + meta_calls_prefix(
                        columns_ptr,
                        self.spec_columns(),
                        j + 1,
                    )
                },
            },
            forall|call: MetaCall| final(sink).accepts(call) == old(sink).accepts(call),
            forall|call: MetaCall| final(sink).rejection(call) == old(sink).rejection(call),
    {
        if !self.has_cursor {
            return Err(StreamError::MissingCursor);
        }
        let n = self.columns.len();
        let mut i: usize = 0;
        while i < n
            invariant
                self.has_cursor,
                n == self.columns.len(),
                i <= n,
                forall|call: MetaCall| sink.accepts(call) == old(sink).accepts(call),
                forall|call: MetaCall| sink.rejection(call) == old(sink).rejection(call),
                sink.log() == old(sink).log() + meta_calls_prefix(
                    columns_ptr,
                    self.spec_columns(),
                    i as int,
                ),
                meta_stop_from(*old(sink), columns_ptr, self.spec_columns(), 0) == meta_stop_from(
                    *old(sink),
                    columns_ptr,
                    self.spec_columns(),
                    i as int,
                ),
            decreases n - i,
        {
            let column = &self.columns[i];
            let code = column.typ.type_code();
            let type_info: Option<&ColumnType> = if code >= 0x20 {
                Some(&column.typ)
            } else {
                None
            };
            let frozen = column.typ.is_frozen();
            proof {
                assert(meta_call_at(columns_ptr, self.spec_columns(), i as int) == (MetaCall {
                    columns: columns_ptr,
                    index: i as int,
                    name: column.name@,
                    keyspace: column.keyspace@,
                    table: column.table@,
                    code,
                    type_info: snapshot_type(type_info),
                    frozen,
                }));
            }
            let outcome = sink.set_column(
                columns_ptr,
                i,
                &column.name,
                &column.keyspace,
                &column.table,
                code,
                type_info,
                frozen,
            );
            match outcome {
                Ok(()) => {},
                Err(raised) => {
                    return Err(StreamError::Callback(raised));
                },
            }
            i = i + 1;
        }
        Ok(())
    }

    /// Advances the stream by exactly one row. The bridge passes in what the
    /// cursor's blocking fetch produced (any placeholder if `wants_fetch` is
    /// false); the engine delivers the row to the host's deserializer, one
    /// callback per present value in index order, nulls skipped. Returns
    /// `Ok(true)` when a row was delivered, `Ok(false)` when the stream has
    /// no row to offer — then and only then the stream is (or just became)
    /// cursor-less or exhausted — and an error otherwise, exactly as
    /// `next_row_rel` lays out.
    pub fn next_row<X, S: RowSink<X>>(
        &mut self,
        fetch: FetchOutcome,
        columns_ptr: ColumnsPtr,
        values_ptr: ValuesPtr,
        serializer_ptr: SerializerPtr,
        sink: &mut S,
    ) -> (r: Result<bool, StreamError<X>>)
        ensures
            next_row_rel(
                *old(self),
                *final(self),
                *old(sink),
                *final(sink),
                columns_ptr,
                values_ptr,
                serializer_ptr,
                fetch,
                r,
            ),
    {
        if !self.has_cursor {
            return Ok(false);
        }
        if self.exhausted {
            return Ok(false);
        }
        match fetch {
            FetchOutcome::End => {
                self.exhausted = true;
                Ok(false)
            },
            FetchOutcome::Failed(message) => Err(StreamError::Fetch(message)),
            FetchOutcome::Row(vals) => {
                let n = self.columns.len();
                let mut i: usize = 0;
                while i < n
                    invariant
                        *self == *old(self),
                        self.has_cursor,
                        !self.exhausted,
                        fetch == FetchOutcome::Row(vals),
                        n == self.columns.len(),
                        i <= n,
                        i <= vals@.len(),
                        forall|call: DeserCall| sink.accepts(call) == old(sink).accepts(call),
                        forall|call: DeserCall| sink.rejection(call) == old(sink).rejection(call),
                        sink.log() == old(sink).log() + deser_calls_prefix(
                            columns_ptr,
                            values_ptr,
                            serializer_ptr,
                            vals@,
                            i as int,
                        ),
                        row_stop_from(
                            *old(sink),
                            columns_ptr,
                            values_ptr,
                            serializer_ptr,
                            vals@,
                            n as int,
                            0,
                        ) == row_stop_from(
                            *old(sink),
                            columns_ptr,
                            values_ptr,
                            serializer_ptr,
                            vals@,
                            n as int,
                            i as int,
                        ),
                    decreases n - i,
                {
                    if i >= vals.len() {
                        proof {
                            assert(row_stops_at(
                                *old(sink),
                                columns_ptr,
                                values_ptr,
                                serializer_ptr,
                                vals@,
                                i as int,
                            ));
                            assert(row_stop_from(
                                *old(sink),
                                columns_ptr,
                                values_ptr,
                                serializer_ptr,
                                vals@,
                                n as int,
                                i as int,
                            ) == Some(i as int));
                        }
                        return Err(StreamError::FewerColumns { present: vals.len(), declared: n });
                    }
                    match &vals[i] {
                        RawValue::Null => {},
                        RawValue::Corrupt(message) => {
                            proof {
                                assert(row_stops_at(
                                    *old(sink),
                                    columns_ptr,
                                    values_ptr,
                                    serializer_ptr,
                                    vals@,
                                    i as int,
                                ));
                                assert(row_stop_from(
                                    *old(sink),
                                    columns_ptr,
                                    values_ptr,
                                    serializer_ptr,
                                    vals@,
                                    n as int,
                                    i as int,
                                ) == Some(i as int));
                            }
                            return Err(StreamError::Column(message.clone()));
                        },
                        RawValue::Bytes(bytes) => {
                            let outcome = sink.deserialize(
                                columns_ptr,
                                values_ptr,
                                i,
                                serializer_ptr,
                                bytes,
                            );
                            match outcome {
                                Ok(()) => {},
                                Err(raised) => {
                                    return Err(StreamError::Callback(raised));
                                },
                            }
                        },
                    }
                    i = i + 1;
                }
                Ok(true)
            },
        }
    }
}

/// The metadata-callback invocation owed for the column at index `i`.
pub open spec fn meta_call_at(columns_ptr: ColumnsPtr, specs: Seq<ColumnSpec>, i: int) -> MetaCall {
    let column = specs[i];
    MetaCall {
        columns: columns_ptr,
        index: i,
        name: column.name@,
        keyspace: column.keyspace@,
        table: column.table@,
        code: code_of(column.typ),
        type_info: if code_of(column.typ) >= 0x20 {
            Some(column.typ)
        } else {
            None
        },
        frozen: frozen_of(column.typ),
    }
}

/// The metadata-callback invocations owed for the first `n` columns.
pub open spec fn meta_calls_prefix(columns_ptr: ColumnsPtr, specs: Seq<ColumnSpec>, n: int) -> Seq<
    MetaCall,
>
    decreases n,
{
    if n <= 0 {
        Seq::empty()
    } else {
        meta_calls_prefix(columns_ptr, specs, n - 1).push(meta_call_at(columns_ptr, specs, n - 1))
    }
}

/// The first column index at or after `i` whose metadata callback raises, if
/// any.
pub open spec fn meta_stop_from<X, S: MetadataSink<X>>(
    sink: S,
    columns_ptr: ColumnsPtr,
    specs: Seq<ColumnSpec>,
    i: int,
) -> Option<int>
    decreases specs.len() - i,
{
    if i < 0 || i >= specs.len() {
        None
    } else if !sink.accepts(meta_call_at(columns_ptr, specs, i)) {
        Some(i)
    } else {
        meta_stop_from(sink, columns_ptr, specs, i + 1)
    }
}

/// The deserialization-callback invocations owed for the first `n` columns of
/// a row: one per present value, none for nulls.
pub open spec fn deser_calls_prefix(
    columns: ColumnsPtr,
    values: ValuesPtr,
    serializer: SerializerPtr,
    vals: Seq<RawValue>,
    n: int,
) -> Seq<DeserCall>
    decreases n,
{
    if n <= 0 {
        Seq::empty()
    } else {
        let rest = deser_calls_prefix(columns, values, serializer, vals, n - 1);
        match vals[n - 1] {
            RawValue::Bytes(bytes) => rest.push(
                deser_call(columns, values, serializer, n - 1, bytes@),
            ),
            _ => rest,
        }
    }
}

/// Whether processing a row stops at column index `i`: the row has run out of
/// raw values, the value there could not be read, or the callback rejects it.
/// A null value never stops the scan — it is skipped without a callback.
pub open spec fn row_stops_at<X, S: RowSink<X>>(
    sink: S,
    columns: ColumnsPtr,
    values: ValuesPtr,
    serializer: SerializerPtr,
    vals: Seq<RawValue>,
    i: int,
) -> bool {
    ||| i >= vals.len()
    ||| vals[i] is Corrupt
    ||| (vals[i] matches RawValue::Bytes(bytes) && !sink.accepts(
        deser_call(columns, values, serializer, i, bytes@),
    ))
}

/// The first column index in `[i, n)` where processing the row stops, if any.
pub open spec fn row_stop_from<X, S: RowSink<X>>(
    sink: S,
    columns: ColumnsPtr,
    values: ValuesPtr,
    serializer: SerializerPtr,
    vals: Seq<RawValue>,
    n: int,
    i: int,
) -> Option<int>
    decreases n - i,
{
    if i < 0 || i >= n {
        None
    } else if row_stops_at(sink, columns, values, serializer, vals, i) {
        Some(i)
    } else {
        row_stop_from(sink, columns, values, serializer, vals, n, i + 1)
    }
}

/// How many leading columns had their turn before processing ended: all `n`
/// on success; up to the stop index otherwise, the stop column itself
/// included only when its callback ran and rejected.
pub open spec fn calls_cutoff(vals: Seq<RawValue>, stop: Option<int>, n: int) -> int {
    match stop {
        None => n,
        Some(j) => if j < vals.len() && vals[j] is Bytes {
            j + 1
        } else {
            j
        },
    }
}

/// Everything one `next_row` call does, as a relation between the stream and
/// sink values before and after, the fetch outcome consumed, and the result:
///
/// - a cursor-less or exhausted stream reports "no row" and changes nothing;
/// - on end-of-stream the stream becomes exhausted, for good;
/// - on a fetch failure the stream is left as it was, ready for a retry;
/// - on a row, the deserializer runs left to right over the declared columns
///   (skipping nulls) until the row runs short, a value is unreadable, or the
///   callback raises — whichever comes first — and the result names exactly
///   that outcome.
pub open spec fn next_row_rel<X, S: RowSink<X>>(
    pre: RowSet,
    post: RowSet,
    sink_pre: S,
    sink_post: S,
    columns: ColumnsPtr,
    values: ValuesPtr,
    serializer: SerializerPtr,
    fetch: FetchOutcome,
    r: Result<bool, StreamError<X>>,
) -> bool {
    &&& post.has_cursor == pre.has_cursor
    &&& post.spec_columns() == pre.spec_columns()
    &&& (forall|call: DeserCall| sink_post.accepts(call) == sink_pre.accepts(call))
    &&& (forall|call: DeserCall| sink_post.rejection(call) == sink_pre.rejection(call))
    &&& if !pre.live() {
        &&& r == Ok::<bool, StreamError<X>>(false)
        &&& post == pre
        &&& sink_post.log() == sink_pre.log()
    } else {
        match fetch {
            FetchOutcome::End => {
                &&& r == Ok::<bool, StreamError<X>>(false)
                &&& post.exhausted
                &&& sink_post.log() == sink_pre.log()
            },
            FetchOutcome::Failed(message) => {
                &&& r == Err::<bool, StreamError<X>>(StreamError::Fetch(message))
                &&& post == pre
                &&& sink_post.log() == sink_pre.log()
            },
            FetchOutcome::Row(vals) => {
                let n = pre.spec_columns().len() as int;
                let stop = row_stop_from(sink_pre, columns, values, serializer, vals@, n, 0);
                &&& post == pre
                &&& sink_post.log() == sink_pre.log() + deser_calls_prefix(
                    columns,
                    values,
                    serializer,
                    vals@,
                    calls_cutoff(vals@, stop, n),
                )
                &&& match stop {
                    None => r == Ok::<bool, StreamError<X>>(true),
                    Some(j) => if j >= vals@.len() {
                        r == Err::<bool, StreamError<X>>(
                            (StreamError::FewerColumns {
                                present: vals@.len() as usize,
                                declared: n as usize,
                            }),
                        )
                    } else {
                        match vals@[j] {
                            RawValue::Corrupt(message) => r == Err::<bool, StreamError<X>>(
                                StreamError::Column(message),
                            ),
                            RawValue::Bytes(bytes) => r == Err::<bool, StreamError<X>>(
                                StreamError::Callback(
                                    sink_pre.rejection(
                                        deser_call(columns, values, serializer, j, bytes@),
                                    ),
                                ),
                            ),
                            RawValue::Null => false,
                        }
                    },
                }
            },
        }
    }
}

/// What must hold of every deserializer invocation owed for the first `m`
/// columns of a row: it carries the caller's tokens, names an index below
/// `m`, and delivers exactly the present bytes at that index.
pub open spec fn call_owed(
    call: DeserCall,
    columns: ColumnsPtr,
    values: ValuesPtr,
    serializer: SerializerPtr,
    vals: Seq<RawValue>,
    m: int,
) -> bool {
    &&& call.columns == columns
    &&& call.values == values
    &&& call.serializer == serializer
    &&& 0 <= call.index < m
    &&& (vals[call.index] matches RawValue::Bytes(bytes) && call.bytes == bytes@)
}

/// Every owed invocation in `deser_calls_prefix` satisfies `call_owed`.
pub proof fn lemma_deser_calls_prefix_spec(
    columns: ColumnsPtr,
    values: ValuesPtr,
    serializer: SerializerPtr,
    vals: Seq<RawValue>,
    m: int,
)
    ensures
        forall|k: int|
            0 <= k < deser_calls_prefix(columns, values, serializer, vals, m).len() ==> call_owed(
                #[trigger] deser_calls_prefix(columns, values, serializer, vals, m)[k],
                columns,
                values,
                serializer,
                vals,
                m,
            ),
    decreases m,
{
    if m > 0 {
        lemma_deser_calls_prefix_spec(columns, values, serializer, vals, m - 1);
        assert forall|k: int|
            0 <= k < deser_calls_prefix(columns, values, serializer, vals, m).len() implies call_owed(
            #[trigger] deser_calls_prefix(columns, values, serializer, vals, m)[k],
            columns,
            values,
            serializer,
            vals,
            m,
        ) by {
            let shorter = deser_calls_prefix(columns, values, serializer, vals, m - 1);
            if k < shorter.len() {
                assert(deser_calls_prefix(columns, values, serializer, vals, m)[k] == shorter[k]);
            }
        }
    }
}

/// Scanning for a stop skips any span known to be free of stops.
pub proof fn lemma_row_stop_skip<X, S: RowSink<X>>(
    sink: S,
    columns: ColumnsPtr,
    values: ValuesPtr,
    serializer: SerializerPtr,
    vals: Seq<RawValue>,
    n: int,
    i: int,
    j: int,
)
    requires
        0 <= i <= j <= n,
        forall|t: int|
            i <= t < j ==> !row_stops_at(sink, columns, values, serializer, vals, t),
    ensures
        row_stop_from(sink, columns, values, serializer, vals, n, i) == row_stop_from(
            sink,
            columns,
            values,
            serializer,
            vals,
            n,
            j,
        ),
    decreases j - i,
{
    if i < j {
        lemma_row_stop_skip(sink, columns, values, serializer, vals, n, i + 1, j);
    }
}

/// A row shorter than the scan's bound always stops the scan, no later than
/// the row's own length.
pub proof fn lemma_row_stop_short<X, S: RowSink<X>>(
    sink: S,
    columns: ColumnsPtr,
    values: ValuesPtr,
    serializer: SerializerPtr,
    vals: Seq<RawValue>,
    n: int,
    i: int,
)
    requires
        0 <= i <= vals.len(),
        vals.len() < n,
    ensures
        row_stop_from(sink, columns, values, serializer, vals, n, i) matches Some(j) && i <= j
            <= vals.len(),
    decreases vals.len() - i,
{
    if !row_stops_at(sink, columns, values, serializer, vals, i) {
        lemma_row_stop_short(sink, columns, values, serializer, vals, n, i + 1);
    }
}

/// Two sinks that accept the same invocations stop a row's scan at the same
/// place.
pub proof fn lemma_row_stop_congruence<X, S: RowSink<X>>(
    sink_a: S,
    sink_b: S,
    columns: ColumnsPtr,
    values: ValuesPtr,
    serializer: SerializerPtr,
    vals: Seq<RawValue>,
    n: int,
    i: int,
)
    requires
        forall|call: DeserCall| sink_a.accepts(call) == sink_b.accepts(call),
    ensures
        row_stop_from(sink_a, columns, values, serializer, vals, n, i) == row_stop_from(
            sink_b,
            columns,
            values,
            serializer,
            vals,
            n,
            i,
        ),
    decreases n - i,
{
    if 0 <= i && i < n {
        lemma_row_stop_congruence(sink_a, sink_b, columns, values, serializer, vals, n, i + 1);
    }
}

/// Law: a null-valued column is never deserialized. Whatever one `next_row`
/// call did with a row, no invocation it appended to the sink's log names the
/// index of a null value.
pub proof fn lemma_null_column_never_deserialized<X, S: RowSink<X>>(
    pre: RowSet,
    post: RowSet,
    sink_pre: S,
    sink_post: S,
    columns: ColumnsPtr,
    values: ValuesPtr,
    serializer: SerializerPtr,
    vals: Vec<RawValue>,
    r: Result<bool, StreamError<X>>,
    i: int,
)
    requires
        next_row_rel(
            pre,
            post,
            sink_pre,
            sink_post,
            columns,
            values,
            serializer,
            FetchOutcome::Row(vals),
            r,
        ),
        0 <= i < vals@.len(),
        vals@[i] is Null,
    ensures
        forall|k: int|
            sink_pre.log().len() <= k < sink_post.log().len() ==> #[trigger] sink_post.log()[k].index
                != i,
{
    if pre.live() {
        let n = pre.spec_columns().len() as int;
        let stop = row_stop_from(sink_pre, columns, values, serializer, vals@, n, 0);
        let cutoff = calls_cutoff(vals@, stop, n);
        let owed = deser_calls_prefix(columns, values, serializer, vals@, cutoff);
        lemma_deser_calls_prefix_spec(columns, values, serializer, vals@, cutoff);
        assert forall|k: int|
            sink_pre.log().len() <= k < sink_post.log().len() implies #[trigger] sink_post.log()[k].index
            != i by {
            assert(sink_post.log()[k] == owed[k - sink_pre.log().len()]);
        }
    }
}

/// Law: a row with fewer raw values than declared columns never has the
/// deserializer invoked for the columns it does not cover; and when nothing
/// stops the scan earlier, the call fails with the fewer-columns error
/// carrying both counts.
pub proof fn lemma_short_row_spares_missing_columns<X, S: RowSink<X>>(
    pre: RowSet,
    post: RowSet,
    sink_pre: S,
    sink_post: S,
    columns: ColumnsPtr,
    values: ValuesPtr,
    serializer: SerializerPtr,
    vals: Vec<RawValue>,
    r: Result<bool, StreamError<X>>,
)
    requires
        next_row_rel(
            pre,
            post,
            sink_pre,
            sink_post,
            columns,
            values,
            serializer,
            FetchOutcome::Row(vals),
            r,
        ),
        pre.live(),
        vals@.len() < pre.spec_columns().len(),
    ensures
        forall|k: int|
            sink_pre.log().len() <= k < sink_post.log().len() ==> #[trigger] sink_post.log()[k].index
                < vals@.len(),
        (forall|t: int|
            0 <= t < vals@.len() ==> !row_stops_at(
                sink_pre,
                columns,
                values,
                serializer,
                vals@,
                t,
            )) ==> r == Err::<bool, StreamError<X>>(
            (StreamError::FewerColumns {
                present: vals@.len() as usize,
                declared: pre.spec_columns().len() as usize,
            }),
        ),
{
    let n = pre.spec_columns().len() as int;
    let stop = row_stop_from(sink_pre, columns, values, serializer, vals@, n, 0);
    lemma_row_stop_short(sink_pre, columns, values, serializer, vals@, n, 0);
    let j = stop->0;
    let cutoff = calls_cutoff(vals@, stop, n);
    assert(cutoff <= vals@.len());
    let owed = deser_calls_prefix(columns, values, serializer, vals@, cutoff);
    lemma_deser_calls_prefix_spec(columns, values, serializer, vals@, cutoff);
    assert forall|k: int|
        sink_pre.log().len() <= k < sink_post.log().len() implies #[trigger] sink_post.log()[k].index
        < vals@.len() by {
        assert(sink_post.log()[k] == owed[k - sink_pre.log().len()]);
    }
    if forall|t: int|
        0 <= t < vals@.len() ==> !row_stops_at(sink_pre, columns, values, serializer, vals@, t) {
        lemma_row_stop_skip(
            sink_pre,
            columns,
            values,
            serializer,
            vals@,
            n,
            0,
            vals@.len() as int,
        );
        assert(row_stops_at(sink_pre, columns, values, serializer, vals@, vals@.len() as int));
    }
}

/// Law: advancing a stream is deterministic in its observable effects. Two
/// `next_row` transitions from the same stream state and sink state that
/// consume the same fetch outcome agree on the result, on the stream's
/// observables, and on the deserializer invocations made. The `&mut`
/// receiver gives each call exclusive access, so a group of concurrent
/// callers is serialized into some sequential order — and by this
/// determinism that order delivers each fetched row exactly once: none
/// duplicated, none dropped, none interleaved mid-row.
pub proof fn lemma_next_row_deterministic<X, S: RowSink<X>>(
    pre: RowSet,
    post1: RowSet,
    post2: RowSet,
    sink_pre: S,
    sink_post1: S,
    sink_post2: S,
    columns: ColumnsPtr,
    values: ValuesPtr,
    serializer: SerializerPtr,
    fetch: FetchOutcome,
    r1: Result<bool, StreamError<X>>,
    r2: Result<bool, StreamError<X>>,
)
    requires
        next_row_rel(pre, post1, sink_pre, sink_post1, columns, values, serializer, fetch, r1),
        next_row_rel(pre, post2, sink_pre, sink_post2, columns, values, serializer, fetch, r2),
    ensures
        r1 == r2,
        sink_post1.log() == sink_post2.log(),
        post1.has_cursor == post2.has_cursor,
        post1.spec_columns() == post2.spec_columns(),
        post1.exhausted == post2.exhausted,
{
}

/// A row this sink lets the stream deliver without incident: it covers all
/// `n` declared columns and nothing in the first `n` values stops the scan —
/// no unreadable value, no rejected invocation.
pub open spec fn full_row<X, S: RowSink<X>>(
    sink: S,
    columns: ColumnsPtr,
    values: ValuesPtr,
    serializer: SerializerPtr,
    vals: Seq<RawValue>,
    n: int,
) -> bool {
    &&& n <= vals.len()
    &&& forall|t: int| 0 <= t < n ==> !row_stops_at(sink, columns, values, serializer, vals, t)
}

/// The transition chain of one stream driven through a sequence of
/// `next_row` calls: entry `u` of `fetches` was consumed by the call that
/// took the stream from `streams[u]` to `streams[u + 1]` and the sink from
/// `sinks[u]` to `sinks[u + 1]`, returning `results[u]`.
pub open spec fn stream_trace<X, S: RowSink<X>>(
    streams: Seq<RowSet>,
    sinks: Seq<S>,
    fetches: Seq<FetchOutcome>,
    results: Seq<Result<bool, StreamError<X>>>,
    columns: ColumnsPtr,
    values: ValuesPtr,
    serializer: SerializerPtr,
) -> bool {
    &&& streams.len() == fetches.len() + 1
    &&& sinks.len() == fetches.len() + 1
    &&& results.len() == fetches.len()
    &&& forall|u: int|
        0 <= u < fetches.len() ==> next_row_rel(
            streams[u],
            streams[u + 1],
            sinks[u],
            sinks[u + 1],
            columns,
            values,
            serializer,
            #[trigger] fetches[u],
            results[u],
        )
}

/// A stream never grows or loses a cursor.
proof fn lemma_cursor_is_stable<X, S: RowSink<X>>(
    streams: Seq<RowSet>,
    sinks: Seq<S>,
    fetches: Seq<FetchOutcome>,
    results: Seq<Result<bool, StreamError<X>>>,
    columns: ColumnsPtr,
    values: ValuesPtr,
    serializer: SerializerPtr,
    t: int,
)
    requires
        stream_trace(streams, sinks, fetches, results, columns, values, serializer),
        0 <= t < streams.len(),
    ensures
        streams[t].has_cursor == streams[0].has_cursor,
    decreases t,
{
    if t > 0 {
        lemma_cursor_is_stable(streams, sinks, fetches, results, columns, values, serializer, t - 1);
        assert(next_row_rel(
            streams[t - 1],
            streams[t],
            sinks[t - 1],
            sinks[t],
            columns,
            values,
            serializer,
            fetches[t - 1],
            results[t - 1],
        ));
    }
}

/// Law: a stream without a cursor is permanently empty. It declares no
/// columns, and successive `next_row` calls — any number of them, whatever
/// the fetch outcomes passed in — all report no row, make no deserializer
/// invocation, and leave the stream cursor-less.
pub proof fn lemma_no_cursor_stream_forever_empty<X, S: RowSink<X>>(
    streams: Seq<RowSet>,
    sinks: Seq<S>,
    fetches: Seq<FetchOutcome>,
    results: Seq<Result<bool, StreamError<X>>>,
    columns: ColumnsPtr,
    values: ValuesPtr,
    serializer: SerializerPtr,
)
    requires
        stream_trace(streams, sinks, fetches, results, columns, values, serializer),
        streams.len() >= 1,
        !streams[0].has_cursor,
    ensures
        streams[0].spec_columns().len() == 0,
        forall|t: int| 0 <= t < streams.len() ==> !(#[trigger] streams[t]).has_cursor,
        forall|t: int| 0 <= t < results.len() ==> results[t] == Ok::<bool, StreamError<X>>(false),
        forall|t: int|
            #![trigger sinks[t].log()]
            0 <= t < results.len() ==> sinks[t + 1].log() == sinks[t].log(),
{
    assert forall|t: int| 0 <= t < streams.len() implies !(#[trigger] streams[t]).has_cursor by {
        lemma_cursor_is_stable(streams, sinks, fetches, results, columns, values, serializer, t);
    }
    assert forall|t: int| 0 <= t < results.len() implies results[t] == Ok::<bool, StreamError<X>>(
        false,
    ) by {
        assert(next_row_rel(
            streams[t],
            streams[t + 1],
            sinks[t],
            sinks[t + 1],
            columns,
            values,
            serializer,
            fetches[t],
            results[t],
        ));
    }
    assert forall|t: int|
        #![trigger sinks[t].log()]
        0 <= t < results.len() implies sinks[t + 1].log() == sinks[t].log() by {
        assert(next_row_rel(
            streams[t],
            streams[t + 1],
            sinks[t],
            sinks[t + 1],
            columns,
            values,
            serializer,
            fetches[t],
            results[t],
        ));
    }
}

/// While a live stream consumes only full rows, it stays live, its columns
/// stay put, and its sink's acceptance does not drift.
proof fn lemma_delivery_prefix<X, S: RowSink<X>>(
    streams: Seq<RowSet>,
    sinks: Seq<S>,
    fetches: Seq<FetchOutcome>,
    results: Seq<Result<bool, StreamError<X>>>,
    columns: ColumnsPtr,
    values: ValuesPtr,
    serializer: SerializerPtr,
    k: int,
    t: int,
)
    requires
        stream_trace(streams, sinks, fetches, results, columns, values, serializer),
        streams[0].live(),
        0 <= k <= fetches.len(),
        forall|u: int|
            0 <= u < k ==> (#[trigger] fetches[u] matches FetchOutcome::Row(vals) && full_row(
                sinks[0],
                columns,
                values,
                serializer,
                vals@,
                streams[0].spec_columns().len() as int,
            )),
        0 <= t <= k,
    ensures
        streams[t].live(),
        streams[t].spec_columns() == streams[0].spec_columns(),
        forall|call: DeserCall| sinks[t].accepts(call) == sinks[0].accepts(call),
    decreases t,
{
    if t > 0 {
        lemma_delivery_prefix(
            streams,
            sinks,
            fetches,
            results,
            columns,
            values,
            serializer,
            k,
            t - 1,
        );
        let n = streams[0].spec_columns().len() as int;
        assert(fetches[t - 1] matches FetchOutcome::Row(vals) && full_row(
            sinks[0],
            columns,
            values,
            serializer,
            vals@,
            n,
        ));
        let vals = fetches[t - 1]->Row_0;
        lemma_row_stop_skip(sinks[0], columns, values, serializer, vals@, n, 0, n);
        lemma_row_stop_congruence(sinks[t - 1], sinks[0], columns, values, serializer, vals@, n, 0);
        assert(next_row_rel(
            streams[t - 1],
            streams[t],
            sinks[t - 1],
            sinks[t],
            columns,
            values,
            serializer,
            fetches[t - 1],
            results[t - 1],
        ));
    }
}

/// Once the end of the stream was consumed, the stream is no longer live.
proof fn lemma_delivery_suffix<X, S: RowSink<X>>(
    streams: Seq<RowSet>,
    sinks: Seq<S>,
    fetches: Seq<FetchOutcome>,
    results: Seq<Result<bool, StreamError<X>>>,
    columns: ColumnsPtr,
    values: ValuesPtr,
    serializer: SerializerPtr,
    k: int,
    t: int,
)
    requires
        stream_trace(streams, sinks, fetches, results, columns, values, serializer),
        streams[0].live(),
        0 <= k < fetches.len(),
        forall|u: int|
            0 <= u < k ==> (#[trigger] fetches[u] matches FetchOutcome::Row(vals) && full_row(
                sinks[0],
                columns,
                values,
                serializer,
                vals@,
                streams[0].spec_columns().len() as int,
            )),
        fetches[k] is End,
        k + 1 <= t <= fetches.len(),
    ensures
        !streams[t].live(),
    decreases t,
{
    if t == k + 1 {
        lemma_delivery_prefix(streams, sinks, fetches, results, columns, values, serializer, k, k);
        assert(next_row_rel(
            streams[k],
            streams[k + 1],
            sinks[k],
            sinks[k + 1],
            columns,
            values,
            serializer,
            fetches[k],
            results[k],
        ));
    } else {
        lemma_delivery_suffix(
            streams,
            sinks,
            fetches,
            results,
            columns,
            values,
            serializer,
            k,
            t - 1,
        );
        assert(next_row_rel(
            streams[t - 1],
            streams[t],
            sinks[t - 1],
            sinks[t],
            columns,
            values,
            serializer,
            fetches[t - 1],
            results[t - 1],
        ));
    }
}

/// Law: successive `next_row` calls on a live stream whose cursor yields `k`
/// full rows and then the end of the stream report a row exactly `k` times —
/// each delivery making exactly the owed deserializer invocations, one per
/// present value, nulls skipped — and report no row on the end-of-stream
/// call and on every call after it, forever.
pub proof fn lemma_stream_delivery<X, S: RowSink<X>>(
    streams: Seq<RowSet>,
    sinks: Seq<S>,
    fetches: Seq<FetchOutcome>,
    results: Seq<Result<bool, StreamError<X>>>,
    columns: ColumnsPtr,
    values: ValuesPtr,
    serializer: SerializerPtr,
    k: int,
)
    requires
        stream_trace(streams, sinks, fetches, results, columns, values, serializer),
        streams[0].live(),
        0 <= k < fetches.len(),
        forall|u: int|
            0 <= u < k ==> (#[trigger] fetches[u] matches FetchOutcome::Row(vals) && full_row(
                sinks[0],
                columns,
                values,
                serializer,
                vals@,
                streams[0].spec_columns().len() as int,
            )),
        fetches[k] is End,
    ensures
        forall|t: int| 0 <= t < k ==> results[t] == Ok::<bool, StreamError<X>>(true),
        forall|t: int|
            0 <= t < k ==> (#[trigger] fetches[t] matches FetchOutcome::Row(vals)
                ==> sinks[t + 1].log() == sinks[t].log() + deser_calls_prefix(
                columns,
                values,
                serializer,
                vals@,
                streams[0].spec_columns().len() as int,
            )),
        forall|t: int| k <= t < results.len() ==> results[t] == Ok::<bool, StreamError<X>>(false),
{
    let n = streams[0].spec_columns().len() as int;
    assert forall|t: int| 0 <= t < k implies results[t] == Ok::<bool, StreamError<X>>(true) && (
    fetches[t] matches FetchOutcome::Row(vals) ==> sinks[t + 1].log() == sinks[t].log()
        + deser_calls_prefix(columns, values, serializer, vals@, n)) by {
        lemma_delivery_prefix(streams, sinks, fetches, results, columns, values, serializer, k, t);
        assert(fetches[t] matches FetchOutcome::Row(vals) && full_row(
            sinks[0],
            columns,
            values,
            serializer,
            vals@,
            n,
        ));
        let vals = fetches[t]->Row_0;
        lemma_row_stop_skip(sinks[0], columns, values, serializer, vals@, n, 0, n);
        lemma_row_stop_congruence(sinks[t], sinks[0], columns, values, serializer, vals@, n, 0);
        assert(next_row_rel(
            streams[t],
            streams[t + 1],
            sinks[t],
            sinks[t + 1],
            columns,
            values,
            serializer,
            fetches[t],
            results[t],
        ));
    }
    assert forall|t: int| k <= t < results.len() implies results[t] == Ok::<bool, StreamError<X>>(
        false,
    ) by {
        if t == k {
            lemma_delivery_prefix(
                streams,
                sinks,
                fetches,
                results,
                columns,
                values,
                serializer,
                k,
                k,
            );
        } else {
            lemma_delivery_suffix(
                streams,
                sinks,
                fetches,
                results,
                columns,
                values,
                serializer,
                k,
                t,
            );
        }
        assert(next_row_rel(
            streams[t],
            streams[t + 1],
            sinks[t],
            sinks[t + 1],
            columns,
            values,
            serializer,
            fetches[t],
            results[t],
        ));
    }
}

} // verus!
