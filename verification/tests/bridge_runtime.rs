use glide_bridge::argbuf::build_argument_buffers;
use glide_bridge::constants::{
    finished_cursor_sentinel, max_request_args_length, type_hash_name, type_list_name,
    type_set_name, type_stream_name, type_string_name, type_zset_name, MAX_REQUEST_ARGS_LENGTH,
};
use glide_bridge::contain::{contain, Outcome, Raised};
use glide_bridge::errors::{BridgeError, TelemetryFault};
use glide_bridge::handshake::{Handshake, ListenerMessage};
use glide_bridge::level::{init_level_argument, log_level_argument, Level};
use glide_bridge::registry::HandleRegistry;
use glide_bridge::stats::statistics_snapshot;
use glide_bridge::telemetry::validate_telemetry_config;
use glide_bridge::text::{i64_to_decimal, u64_to_decimal};

#[test]
fn handle_leak_then_single_redeem() {
    let mut registry: HandleRegistry<Vec<u8>> = HandleRegistry::new();
    let first = registry.leak(vec![1, 2, 3]);
    let second = registry.leak(vec![4]);
    assert_ne!(first, second);
    assert!(first >= 1 && second >= 1);
    assert_eq!(registry.redeem(first), Ok(vec![1, 2, 3]));
    assert_eq!(registry.redeem(first), Err(BridgeError::InvalidHandle(first)));
    assert_eq!(registry.redeem(second), Ok(vec![4]));
    assert_eq!(registry.redeem(second), Err(BridgeError::InvalidHandle(second)));
}

#[test]
fn handle_zero_negative_and_unknown_rejected() {
    let mut registry: HandleRegistry<u64> = HandleRegistry::new();
    let handle = registry.leak(9);
    assert_eq!(registry.redeem(0), Err(BridgeError::InvalidHandle(0)));
    assert_eq!(registry.redeem(-5), Err(BridgeError::InvalidHandle(-5)));
    assert_eq!(registry.redeem(handle + 1), Err(BridgeError::InvalidHandle(handle + 1)));
    assert_eq!(registry.redeem(handle), Ok(9));
}

#[test]
fn handle_peek_borrows_without_reclaiming() {
    let mut registry: HandleRegistry<String> = HandleRegistry::new();
    let handle = registry.leak(String::from("kept"));
    assert_eq!(registry.peek(handle), Ok(&String::from("kept")));
    assert_eq!(registry.peek(handle), Ok(&String::from("kept")));
    assert_eq!(registry.redeem(handle), Ok(String::from("kept")));
    assert_eq!(registry.peek(handle), Err(BridgeError::InvalidHandle(handle)));
}

#[test]
fn contain_success_returns_value_and_raises_nothing() {
    let contained = contain(Outcome::Success(17i64), 0i64);
    assert_eq!(contained.value, 17);
    assert!(contained.raised.is_none());
}

#[test]
fn contain_failure_returns_sentinel_and_raises_typed_error() {
    let contained = contain(Outcome::Failure(BridgeError::Decoding), 0i64);
    assert_eq!(contained.value, 0);
    assert_eq!(contained.raised, Some(Raised::Error(BridgeError::Decoding)));
}

#[test]
fn contain_fault_returns_sentinel_and_reports() {
    let contained = contain(
        Outcome::<Option<String>>::Fault(String::from("valueFromPointer")),
        None,
    );
    assert_eq!(contained.value, None);
    assert_eq!(contained.raised, Some(Raised::Fault(String::from("valueFromPointer"))));
}

#[test]
fn handshake_ready_on_bound_address() {
    let mut handshake = Handshake::new();
    assert!(!handshake.is_settled());
    let result = handshake.settle(Some(ListenerMessage::Bound(String::from("/tmp/socket"))));
    assert_eq!(result, Ok(String::from("/tmp/socket")));
    assert!(handshake.is_settled());
}

#[test]
fn handshake_failed_on_refusal() {
    let mut handshake = Handshake::new();
    let result = handshake.settle(Some(ListenerMessage::Refused(String::from("bind failed"))));
    assert_eq!(
        result,
        Err(BridgeError::TransportStartup(String::from("bind failed")))
    );
    assert!(handshake.is_settled());
}

#[test]
fn handshake_failed_on_closed_channel() {
    let mut handshake = Handshake::new();
    let result = handshake.settle(None);
    assert_eq!(
        result,
        Err(BridgeError::TransportStartup(String::from(
            "listener channel closed before reporting an address"
        )))
    );
    assert!(handshake.is_settled());
}

#[test]
fn telemetry_both_endpoints_absent_fails() {
    let result = validate_telemetry_config(None, 10, None, 100);
    assert!(matches!(
        result,
        Err(BridgeError::TelemetryConfig(TelemetryFault::NoEndpoints))
    ));
}

#[test]
fn telemetry_zero_flush_interval_fails() {
    let result = validate_telemetry_config(Some(String::from("grpc://localhost:4317")), 10, None, 0);
    assert!(matches!(
        result,
        Err(BridgeError::TelemetryConfig(TelemetryFault::NonPositiveFlushInterval(0)))
    ));
}

#[test]
fn telemetry_negative_sample_percentage_fails() {
    let result =
        validate_telemetry_config(Some(String::from("http://localhost:4318")), -1, None, 100);
    assert!(matches!(
        result,
        Err(BridgeError::TelemetryConfig(TelemetryFault::NegativeSamplePercentage(-1)))
    ));
}

#[test]
fn telemetry_one_endpoint_and_interval_succeeds() {
    let config = validate_telemetry_config(
        None,
        -1,
        Some(String::from("file:///var/log/metrics.json")),
        100,
    )
    .unwrap();
    assert!(config.traces.is_none());
    assert_eq!(
        config.metrics.as_ref().map(|metrics| metrics.endpoint.as_str()),
        Some("file:///var/log/metrics.json")
    );
    assert_eq!(config.flush_interval_ms, Some(100));

    let config = validate_telemetry_config(
        Some(String::from("grpc://collector:4317")),
        5,
        Some(String::from("https://collector:4318")),
        400,
    )
    .unwrap();
    let traces = config.traces.unwrap();
    assert_eq!(traces.endpoint, "grpc://collector:4317");
    assert_eq!(traces.sample_percentage, Some(5));
    assert_eq!(config.metrics.unwrap().endpoint, "https://collector:4318");
    assert_eq!(config.flush_interval_ms, Some(400));
}

#[test]
fn constants_are_stable() {
    assert_eq!(type_string_name(), "string");
    assert_eq!(type_list_name(), "list");
    assert_eq!(type_set_name(), "set");
    assert_eq!(type_zset_name(), "zset");
    assert_eq!(type_hash_name(), "hash");
    assert_eq!(type_stream_name(), "stream");
    assert_eq!(finished_cursor_sentinel(), "finished");
    assert_eq!(max_request_args_length(), MAX_REQUEST_ARGS_LENGTH);
    // Repeated queries return the same value.
    assert_eq!(type_string_name(), type_string_name());
    assert_eq!(finished_cursor_sentinel(), finished_cursor_sentinel());
    assert_eq!(max_request_args_length(), max_request_args_length());
}

#[test]
fn statistics_snapshot_renders_totals() {
    let snapshot = statistics_snapshot(3, 12);
    assert_eq!(
        snapshot,
        vec![
            (String::from("total_connections"), String::from("3")),
            (String::from("total_clients"), String::from("12")),
        ]
    );
}

#[test]
fn decimal_rendering_exact() {
    assert_eq!(u64_to_decimal(0), "0");
    assert_eq!(u64_to_decimal(10), "10");
    assert_eq!(u64_to_decimal(409612), "409612");
    assert_eq!(u64_to_decimal(u64::MAX), "18446744073709551615");
    assert_eq!(i64_to_decimal(-17), "-17");
    assert_eq!(i64_to_decimal(0), "0");
    assert_eq!(i64_to_decimal(i64::MIN), "-9223372036854775808");
}

#[test]
fn error_messages_exact() {
    assert_eq!(
        BridgeError::InvalidHandle(-3).message(),
        "invalid handle: -3"
    );
    assert_eq!(
        BridgeError::Decoding.message(),
        "invalid UTF-8: cannot decode bytes as text"
    );
    assert_eq!(
        BridgeError::TelemetryConfig(TelemetryFault::NonPositiveFlushInterval(0)).message(),
        "invalid telemetry configuration: flush interval must be a positive number of milliseconds, got 0"
    );
    assert_eq!(
        BridgeError::LoggerConfig(9).message(),
        "invalid log level: 9"
    );
    assert_eq!(
        BridgeError::TransportStartup(String::from("bind failed")).message(),
        "failed to start the listener: bind failed"
    );
    assert_eq!(
        BridgeError::BoundaryApi(String::from("constructor missing")).message(),
        "host runtime call failed: constructor missing"
    );
}

#[test]
fn level_codes_round_trip() {
    let levels = [
        Level::Error,
        Level::Warn,
        Level::Info,
        Level::Debug,
        Level::Trace,
        Level::Off,
    ];
    for (expected_code, level) in levels.iter().enumerate() {
        let code = level.code();
        assert_eq!(code, expected_code as i32);
        assert_eq!(Level::from_code(code), Some(*level));
    }
    assert_eq!(Level::from_code(6), None);
    assert_eq!(Level::from_code(-1), None);
}

#[test]
fn logger_level_arguments() {
    assert_eq!(init_level_argument(-5), Ok(None));
    assert_eq!(init_level_argument(3), Ok(Some(Level::Debug)));
    assert_eq!(init_level_argument(9), Err(BridgeError::LoggerConfig(9)));
    assert_eq!(log_level_argument(2), Ok(Level::Info));
    assert_eq!(log_level_argument(-1), Err(BridgeError::LoggerConfig(-1)));
    assert_eq!(log_level_argument(6), Err(BridgeError::LoggerConfig(6)));
}

#[test]
fn argument_buffers_hold_exact_bytes() {
    let arguments = vec![vec![1u8, 2, 3], vec![], vec![0xff]];
    let buffers = build_argument_buffers(&arguments);
    assert_eq!(buffers.len(), 3);
    assert_eq!(buffers[0].as_ref(), &[1u8, 2, 3][..]);
    assert_eq!(buffers[1].as_ref(), &[][..]);
    assert_eq!(buffers[2].as_ref(), &[0xffu8][..]);
}
