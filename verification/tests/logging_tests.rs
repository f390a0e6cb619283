use std::collections::HashMap;

use wascc_provider::logging::{
    call_kind, parse_level, CallKind, CallOutcome, CapabilityConfig, LogLevel, LogRequest,
    LoggingError, LoggingProvider, LOG_PATH_KEY,
};
use wascc_provider::registry::Registry;

use wasmcloud_actor_core::{CapabilityConfiguration, HealthCheckResponse};
use wasmcloud_actor_logging::WriteLogArgs;
use wasmcloud_provider_core::serialize;

fn bind_payload(module: &str, path: Option<&str>) -> Vec<u8> {
    let mut values = HashMap::new();
    if let Some(p) = path {
        values.insert("LOG_PATH".to_string(), p.to_string());
    }
    values.insert("other".to_string(), "value".to_string());
    serialize(CapabilityConfiguration { module: module.to_string(), values }).unwrap()
}

fn log_payload(level: &str, text: &str) -> Vec<u8> {
    serialize(WriteLogArgs {
        target: "greet".to_string(),
        level: level.to_string(),
        text: text.to_string(),
    })
    .unwrap()
}

fn error_text<T>(r: Result<T, LoggingError>) -> String {
    match r {
        Ok(_) => panic!("an error was expected"),
        Err(e) => e.message(),
    }
}

#[test]
fn test_parse_level() {
    assert!(matches!(parse_level("error"), Ok(LogLevel::Error)));
    assert!(matches!(parse_level("warn"), Ok(LogLevel::Warn)));
    assert!(matches!(parse_level("info"), Ok(LogLevel::Info)));
    assert!(matches!(parse_level("debug"), Ok(LogLevel::Debug)));
    assert!(matches!(parse_level("trace"), Ok(LogLevel::Trace)));
    assert_eq!(error_text(parse_level("loud")), "Unknown log level loud");
    assert_eq!(error_text(parse_level("INFO")), "Unknown log level INFO");
}

#[test]
fn test_call_kind() {
    assert_eq!(call_kind("BindActor", "system"), CallKind::BindActor);
    assert_eq!(call_kind("RemoveActor", "system"), CallKind::RemoveActor);
    assert_eq!(call_kind("HealthRequest", "system"), CallKind::HealthRequest);
    assert_eq!(call_kind("WriteLog", "MB4OLDIC"), CallKind::WriteLog);
    assert_eq!(call_kind("WriteLog", "system"), CallKind::WriteLog);
    assert_eq!(call_kind("BindActor", "MB4OLDIC"), CallKind::Unknown);
    assert_eq!(call_kind("HealthRequest", "MB4OLDIC"), CallKind::Unknown);
    assert_eq!(call_kind("DoHello", "system"), CallKind::Unknown);
}

#[test]
fn test_error_texts() {
    assert_eq!(LoggingError::PathUnspecified.message(), "log file path was unspecified");
    assert_eq!(
        LoggingError::LoggerNotFound { actor: "a".to_string() }.message(),
        "Unable to find logger for actor a"
    );
    assert_eq!(
        LoggingError::UnknownOperation { op: "Foo".to_string() }.message(),
        "Unknown operation: Foo"
    );
    assert_eq!(LoggingError::Codec { message: "bad".to_string() }.message(), "bad");
}

#[test]
fn test_bind_actor() {
    let provider: LoggingProvider<u8> = LoggingProvider::new();
    match provider.handle_call("system", "BindActor", &bind_payload("actor1", Some("/tmp/actor1.log"))) {
        Ok(CallOutcome::Configure { module, path }) => {
            assert_eq!(module, "actor1");
            assert_eq!(path, "/tmp/actor1.log");
        }
        _ => panic!("a binding with a log path configures the actor"),
    }
}

#[test]
fn test_bind_actor_without_path() {
    let provider: LoggingProvider<u8> = LoggingProvider::new();
    let r = provider.handle_call("system", "BindActor", &bind_payload("actor1", None));
    assert_eq!(error_text(r), "log file path was unspecified");
}

#[test]
fn test_configure() {
    let mut values = Registry::new();
    values.insert(LOG_PATH_KEY.to_string(), "/tmp/x.log".to_string());
    match LoggingProvider::<u8>::configure(CapabilityConfig { module: "m".to_string(), values }) {
        Ok(CallOutcome::Configure { module, path }) => {
            assert_eq!(module, "m");
            assert_eq!(path, "/tmp/x.log");
        }
        _ => panic!("the path is given"),
    }
    let values = Registry::new();
    let r = LoggingProvider::<u8>::configure(CapabilityConfig { module: "m".to_string(), values });
    assert!(matches!(r, Err(LoggingError::PathUnspecified)));
}

#[test]
fn test_undecodable_payload() {
    let provider: LoggingProvider<u8> = LoggingProvider::new();
    let r = provider.handle_call("system", "BindActor", &[0xc1]);
    assert!(error_text(r).starts_with("Failed to de-serialize"));
    let r = provider.handle_call("actor1", "WriteLog", &[0xc1]);
    assert!(error_text(r).starts_with("Failed to de-serialize"));
}

#[test]
fn test_remove_actor_and_health() {
    let provider: LoggingProvider<u8> = LoggingProvider::new();
    match provider.handle_call("system", "RemoveActor", &[]) {
        Ok(CallOutcome::Reply { payload }) => assert!(payload.is_empty()),
        _ => panic!("removing an actor is answered with an empty payload"),
    }
    let expected = serialize(HealthCheckResponse { healthy: true, message: "".to_string() }).unwrap();
    let mut fixed = vec![0x82u8, 0xa7];
    fixed.extend_from_slice(b"healthy");
    fixed.push(0xc3);
    fixed.push(0xa7);
    fixed.extend_from_slice(b"message");
    fixed.push(0xa0);
    assert_eq!(expected, fixed);
    assert_eq!(expected.len(), 19);
    match provider.handle_call("system", "HealthRequest", &[]) {
        Ok(CallOutcome::Reply { payload }) => assert_eq!(payload, expected),
        _ => panic!("a health request is answered"),
    }
}

#[test]
fn test_unknown_operation() {
    let provider: LoggingProvider<u8> = LoggingProvider::new();
    let r = provider.handle_call("system", "DoHello", &[]);
    assert_eq!(error_text(r), "Unknown operation: DoHello");
    let r = provider.handle_call("actor1", "BindActor", &bind_payload("actor1", Some("/tmp/a")));
    assert_eq!(error_text(r), "Unknown operation: BindActor");
}

#[test]
fn test_write_log_needs_binding() {
    let mut provider: LoggingProvider<u8> = LoggingProvider::new();
    let r = provider.handle_call("actor1", "WriteLog", &log_payload("warn", "warn something"));
    assert_eq!(error_text(r), "Unable to find logger for actor actor1");

    provider.bind("actor1".to_string(), 7);
    match provider.handle_call("actor1", "WriteLog", &log_payload("warn", "warn something")) {
        Ok(CallOutcome::Write { entry }) => {
            assert_eq!(entry.level, LogLevel::Warn);
            assert_eq!(entry.target, "greet");
            assert_eq!(entry.line, "[actor1] warn something");
        }
        _ => panic!("a bound actor can log"),
    }
    assert_eq!(provider.logger("actor1"), Some(&7));

    // the other actor still has no logger
    let r = provider.handle_call("actor2", "WriteLog", &log_payload("info", "info something"));
    assert_eq!(error_text(r), "Unable to find logger for actor actor2");
    assert_eq!(provider.logger("actor2"), None);

    let r = provider.handle_call("actor1", "WriteLog", &log_payload("loud", "x"));
    assert_eq!(error_text(r), "Unknown log level loud");
}

#[test]
fn test_write_log_request() {
    let mut provider: LoggingProvider<u8> = LoggingProvider::new();
    provider.bind("a".to_string(), 1);
    provider.bind("b".to_string(), 2);
    let request = LogRequest {
        target: "t".to_string(),
        level: "error".to_string(),
        text: "error body".to_string(),
    };
    match provider.write_log("b", request) {
        Ok(CallOutcome::Write { entry }) => {
            assert_eq!(entry.level, LogLevel::Error);
            assert_eq!(entry.line, "[b] error body");
            assert_eq!(entry.target, "t");
        }
        _ => panic!("b is bound"),
    }
    assert_eq!(provider.logger("b"), Some(&2));
}
