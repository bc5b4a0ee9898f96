use cql_bridge::errors::{
    marshal_session_failure, marshal_stream_error, BasicExceptionFactory, ErrorCategory,
    MarshalledException, SessionFailure, StreamError,
};
use cql_bridge::sinks::CallbackFault;

#[test]
fn missing_cursor_marshals_as_internal() {
    let factory = BasicExceptionFactory;
    let exn = marshal_stream_error::<MarshalledException, _>(
        &factory,
        StreamError::MissingCursor,
    );
    assert_eq!(exn.category, ErrorCategory::Internal);
    assert_eq!(exn.counts, None);
}

#[test]
fn fewer_columns_marshals_as_internal_with_both_counts() {
    let factory = BasicExceptionFactory;
    let exn = marshal_stream_error::<MarshalledException, _>(
        &factory,
        StreamError::FewerColumns { present: 2, declared: 5 },
    );
    assert_eq!(exn.category, ErrorCategory::Internal);
    assert_eq!(exn.counts, Some((2, 5)));
}

#[test]
fn transport_errors_marshal_as_execution() {
    let factory = BasicExceptionFactory;
    let exn = marshal_stream_error::<MarshalledException, _>(
        &factory,
        StreamError::Fetch("page timed out".to_string()),
    );
    assert_eq!(exn.category, ErrorCategory::Execution);
    assert_eq!(exn.detail, "page timed out");

    let exn = marshal_stream_error::<MarshalledException, _>(
        &factory,
        StreamError::Column("unreadable value".to_string()),
    );
    assert_eq!(exn.category, ErrorCategory::Execution);
    assert_eq!(exn.detail, "unreadable value");
}

#[test]
fn callback_exception_is_returned_verbatim() {
    let factory = BasicExceptionFactory;
    let raised = MarshalledException {
        category: ErrorCategory::Execution,
        detail: "raised by the host".to_string(),
        counts: None,
    };
    let exn = marshal_stream_error(&factory, StreamError::Callback(raised));
    assert_eq!(exn.category, ErrorCategory::Execution);
    assert_eq!(exn.detail, "raised by the host");
}

#[test]
fn callback_fault_codes_survive_the_engine_error() {
    // the engine's callback variant carries the sink's error type untouched
    let error: StreamError<CallbackFault> = StreamError::Callback(CallbackFault { code: 7 });
    match error {
        StreamError::Callback(fault) => assert_eq!(fault.code, 7),
        _ => panic!("expected a callback error"),
    }
}

#[test]
fn session_failures_pick_their_constructor() {
    let factory = BasicExceptionFactory;
    let exn = marshal_session_failure::<MarshalledException, _>(
        &factory,
        SessionFailure::Connection("no node reachable".to_string()),
    );
    assert_eq!(exn.category, ErrorCategory::Connection);
    assert_eq!(exn.detail, "no node reachable");

    let exn = marshal_session_failure::<MarshalledException, _>(
        &factory,
        SessionFailure::Preparation("syntax error".to_string()),
    );
    assert_eq!(exn.category, ErrorCategory::Preparation);
    assert_eq!(exn.detail, "syntax error");

    // keyspace-selection failures arrive already collapsed into Execution
    let exn = marshal_session_failure::<MarshalledException, _>(
        &factory,
        SessionFailure::Execution("keyspace does not exist".to_string()),
    );
    assert_eq!(exn.category, ErrorCategory::Execution);
    assert_eq!(exn.detail, "keyspace does not exist");
}
