use wallet_core::error::AptosError;
use wallet_core::logger::{parse_log_level, str_equal, LogLevel, Logger};
use wallet_core::response::handle_response;
use wallet_core::rust_data::RustData;

#[test]
fn bytes_round_trip_through_release() {
    let data = RustData::from_bytes(vec![1, 2, 3]);
    assert_eq!(data.error_text(), None);
    let (bytes, err) = data.release();
    assert_eq!(bytes, vec![1, 2, 3]);
    assert_eq!(err, None);
}

#[test]
fn empty_bytes_buffer() {
    let (bytes, err) = RustData::from_result(Ok(Vec::new())).release();
    assert!(bytes.is_empty());
    assert_eq!(err, None);
}

#[test]
fn error_buffer_carries_error_text_only() {
    let data = RustData::from_result(Err(AptosError::InvalidSequenceNumber));
    assert_eq!(data.error_text(), Some(String::from("InvalidSequenceNumber")));
    let (bytes, err) = data.release();
    assert!(bytes.is_empty());
    assert_eq!(err, Some(String::from("InvalidSequenceNumber")));
}

#[test]
fn error_messages() {
    assert_eq!(AptosError::InvalidJSON.message(), "InvalidJSON");
    assert_eq!(AptosError::InvalidRequest.message(), "InvalidRequest");
    assert_eq!(AptosError::InvalidResponse.message(), "InvalidResponse");
    assert_eq!(AptosError::RemoteRejected(String::from("sequence number too old")).message(), "sequence number too old");
    assert_eq!(AptosError::TimeWentBackwards.message(), "TimeWentBackwards");
    assert_eq!(AptosError::InvalidKeyEncoding.message(), "InvalidKeyEncoding");
    assert_eq!(AptosError::TooManySignatures.message(), "TooManySignatures");
    assert_eq!(AptosError::MalformedRequest.message(), "MalformedRequest");
    let e = AptosError::MalformedRequest;
    assert_eq!(RustData::from_err(e.clone()).error_text(), Some(e.message()));
}

#[test]
fn log_levels_by_name() {
    assert_eq!(parse_log_level("debug"), LogLevel::Debug);
    assert_eq!(parse_log_level("info"), LogLevel::Info);
    assert_eq!(parse_log_level("error"), LogLevel::Error);
    assert_eq!(parse_log_level("trace"), LogLevel::Trace);
    assert_eq!(parse_log_level("warn"), LogLevel::Warn);
    assert_eq!(parse_log_level("verbose"), LogLevel::Debug);
    assert_eq!(parse_log_level("INFO"), LogLevel::Debug);
    assert_eq!(parse_log_level(""), LogLevel::Debug);
}

#[test]
fn logger_filters_and_formats() {
    let logger = Logger;
    assert!(logger.enabled(LogLevel::Error));
    assert!(logger.enabled(LogLevel::Warn));
    assert!(logger.enabled(LogLevel::Info));
    assert!(!logger.enabled(LogLevel::Debug));
    assert!(!logger.enabled(LogLevel::Trace));
    assert_eq!(logger.log(LogLevel::Error, "boom"), "🚨 ERROR - boom");
    assert_eq!(logger.log(LogLevel::Info, "hi"), "🔵 INFO - hi");
    assert_eq!(logger.log(LogLevel::Warn, "w"), "⚠️ WARNING - w");
    assert_eq!(logger.log(LogLevel::Debug, "d"), "🛠 DEBUG - d");
    assert_eq!(logger.log(LogLevel::Trace, "t"), "🔮 TRACE - t");
}

#[test]
fn str_equal_compares_characters() {
    assert!(str_equal("", ""));
    assert!(str_equal("héllo", "héllo"));
    assert!(!str_equal("hello", "hellO"));
    assert!(!str_equal("hell", "hello"));
}

#[test]
fn ledger_answers_are_classified() {
    assert!(matches!(handle_response::<u64>(false, None, String::new()), Err(AptosError::InvalidJSON)));
    assert!(matches!(handle_response::<u64>(false, Some(3), String::from("m")), Err(AptosError::InvalidJSON)));
    assert!(matches!(handle_response::<u64>(true, Some(3), String::from("ignored")), Ok(3)));
    assert!(matches!(handle_response::<u64>(true, None, String::new()), Err(AptosError::InvalidResponse)));
    match handle_response::<u64>(true, None, String::from("account not found")) {
        Err(AptosError::RemoteRejected(m)) => assert_eq!(m, "account not found"),
        other => panic!("unexpected {:?}", other),
    }
}
