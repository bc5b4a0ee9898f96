//! The error taxonomy that crosses the boundary, and exception marshalling.
//!
//! Internal errors must reach the host as host-native exception objects
//! without this crate knowing their shape. The host supplies a factory of
//! constructor callbacks, one per error category; marshalling only ever picks
//! a constructor, and hands a callback's own exception back verbatim.

use vstd::prelude::*;

verus! {

/// The stable error surface: a failure is one of exactly four categories.
/// Every keyspace-selection failure is deliberately collapsed into
/// `Execution`, so the host handles one stable surface.
#[derive(Clone, Copy, PartialEq, Eq, Structural, Debug)]
pub enum ErrorCategory {
    Connection,
    Preparation,
    Execution,
    Internal,
}

/// A failure of a session-level operation: establishing a session, preparing
/// a statement, or executing one (keyspace selection included).
pub enum SessionFailure {
    Connection(String),
    Preparation(String),
    Execution(String),
}

/// A failure while streaming rows. `Callback(x)` carries an exception that
/// the host's own callback raised; it is propagated verbatim, never wrapped.
pub enum StreamError<X> {
    /// Column metadata was asked of a stream that has no cursor.
    MissingCursor,
    /// A row carried fewer raw values than the metadata declares columns.
    FewerColumns { present: usize, declared: usize },
    /// The cursor failed while fetching the next row.
    Fetch(String),
    /// One raw column value could not be read from the page frame.
    Column(String),
    /// The host's deserialization or metadata callback raised an exception.
    Callback(X),
}

/// The host's table of exception constructors: one per error category. The
/// core never builds a host exception itself; it only calls through this
/// table. `category_of` and `detail_of` are the host's own accounting of
/// which constructor built an exception and from which detail text.
pub trait ExceptionFactory<X> {
    spec fn category_of(&self, exn: X) -> ErrorCategory;

    spec fn detail_of(&self, exn: X) -> Seq<char>;

    /// Builds the exception for a failed session establishment.
    fn connection_error(&self, detail: &String) -> (exn: X)
        ensures
            self.category_of(exn) == ErrorCategory::Connection,
            self.detail_of(exn) == detail@,
    ;

    /// Builds the exception for a failed statement preparation.
    fn preparation_error(&self, detail: &String) -> (exn: X)
        ensures
            self.category_of(exn) == ErrorCategory::Preparation,
            self.detail_of(exn) == detail@,
    ;

    /// Builds the exception for a failed execution or page fetch.
    fn execution_error(&self, detail: &String) -> (exn: X)
        ensures
            self.category_of(exn) == ErrorCategory::Execution,
            self.detail_of(exn) == detail@,
    ;

    /// Builds the exception reporting a row narrower than its metadata,
    /// carrying both counts.
    fn fewer_columns_error(&self, present: usize, declared: usize) -> (exn: X)
        ensures
            self.category_of(exn) == ErrorCategory::Internal,
    ;

    /// Builds the exception reporting that a cursor-less stream was asked
    /// for metadata.
    fn missing_cursor_error(&self) -> (exn: X)
        ensures
            self.category_of(exn) == ErrorCategory::Internal,
    ;
}

/// Turns a streaming failure into a host exception: internal-consistency
/// errors and transport errors pick the matching constructor; an exception
/// raised by the host's own callback is returned verbatim.
pub fn marshal_stream_error<X, F: ExceptionFactory<X>>(factory: &F, error: StreamError<X>) -> (exn:
    X)
    ensures
        error is MissingCursor ==> factory.category_of(exn) == ErrorCategory::Internal,
        error is FewerColumns ==> factory.category_of(exn) == ErrorCategory::Internal,
        error matches StreamError::Fetch(detail) ==> factory.category_of(exn)
            == ErrorCategory::Execution && factory.detail_of(exn) == detail@,
        error matches StreamError::Column(detail) ==> factory.category_of(exn)
            == ErrorCategory::Execution && factory.detail_of(exn) == detail@,
        error matches StreamError::Callback(raised) ==> exn == raised,
{
    match error {
        StreamError::MissingCursor => factory.missing_cursor_error(),
        StreamError::FewerColumns { present, declared } => factory.fewer_columns_error(
            present,
            declared,
        ),
        StreamError::Fetch(detail) => factory.execution_error(&detail),
        StreamError::Column(detail) => factory.execution_error(&detail),
        StreamError::Callback(raised) => raised,
    }
}

/// Turns a session-level failure into a host exception through the matching
/// constructor, keeping the detail text.
pub fn marshal_session_failure<X, F: ExceptionFactory<X>>(factory: &F, failure: SessionFailure) -> (
    exn: X)
    ensures
        failure matches SessionFailure::Connection(detail) ==> factory.category_of(exn)
            == ErrorCategory::Connection && factory.detail_of(exn) == detail@,
        failure matches SessionFailure::Preparation(detail) ==> factory.category_of(exn)
            == ErrorCategory::Preparation && factory.detail_of(exn) == detail@,
        failure matches SessionFailure::Execution(detail) ==> factory.category_of(exn)
            == ErrorCategory::Execution && factory.detail_of(exn) == detail@,
{
    match failure {
        SessionFailure::Connection(detail) => factory.connection_error(&detail),
        SessionFailure::Preparation(detail) => factory.preparation_error(&detail),
        SessionFailure::Execution(detail) => factory.execution_error(&detail),
    }
}

/// A plain in-crate exception value, for hosts (and tests) that need no
/// foreign representation: the category that built it, the detail text, and
/// the two counts when a fewer-columns error is reported.
pub struct MarshalledException {
    pub category: ErrorCategory,
    pub detail: String,
    pub counts: Option<(usize, usize)>,
}

/// An `ExceptionFactory` producing `MarshalledException` values.
pub struct BasicExceptionFactory;

impl ExceptionFactory<MarshalledException> for BasicExceptionFactory {
    open spec fn category_of(&self, exn: MarshalledException) -> ErrorCategory {
        exn.category
    }

    open spec fn detail_of(&self, exn: MarshalledException) -> Seq<char> {
        exn.detail@
    }

    fn connection_error(&self, detail: &String) -> (exn: MarshalledException) {
        MarshalledException {
            category: ErrorCategory::Connection,
            detail: detail.clone(),
            counts: None,
        }
    }

    fn preparation_error(&self, detail: &String) -> (exn: MarshalledException) {
        MarshalledException {
            category: ErrorCategory::Preparation,
            detail: detail.clone(),
            counts: None,
        }
    }

    fn execution_error(&self, detail: &String) -> (exn: MarshalledException) {
        MarshalledException {
            category: ErrorCategory::Execution,
            detail: detail.clone(),
            counts: None,
        }
    }

    fn fewer_columns_error(&self, present: usize, declared: usize) -> (exn: MarshalledException) {
        MarshalledException {
            category: ErrorCategory::Internal,
            detail: String::new(),
            counts: Some((present, declared)),
        }
    }

    fn missing_cursor_error(&self) -> (exn: MarshalledException) {
        MarshalledException { category: ErrorCategory::Internal, detail: String::new(), counts: None }
    }
}

} // verus!
