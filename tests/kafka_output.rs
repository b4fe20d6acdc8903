use kafka_output::config::{default_max_inflight_messages, ConfigError, KafkaLogLevel, KafkaOutputConfig};
use kafka_output::delivery::{AsyncErrorReport, DeliveryOutcome, KafkaOutputContext};
use kafka_output::endpoint::{KafkaOutputEndpoint, OUTPUT_POLLING_INTERVAL_MS};
use kafka_output::gate::FlowGate;
use kafka_output::udf::{UdfRequest, UdfResponse};
use kafka_output::KafkaOutputTransport;
use std::time::{Duration, Instant};

fn config(max: u32) -> KafkaOutputConfig {
    KafkaOutputConfig {
        kafka_options: Vec::new(),
        topic: "output".to_string(),
        log_level: None,
        max_inflight_messages: max,
    }
}

fn opt(k: &str, v: &str) -> (String, String) {
    (k.to_string(), v.to_string())
}

#[test]
fn default_ceiling_is_one_thousand() {
    assert_eq!(default_max_inflight_messages(), 1000);
}

#[test]
fn transport_is_named_kafka() {
    assert_eq!(KafkaOutputTransport.name(), "kafka");
}

#[test]
fn set_option_if_missing_adds_absent_key() {
    let mut c = config(10);
    c.set_option_if_missing("acks", "all");
    assert_eq!(c.kafka_options, vec![opt("acks", "all")]);
}

#[test]
fn set_option_if_missing_keeps_present_key() {
    let mut c = config(10);
    c.kafka_options.push(opt("acks", "1"));
    c.set_option_if_missing("acks", "all");
    c.set_option_if_missing("linger.ms", "5");
    assert_eq!(c.kafka_options, vec![opt("acks", "1"), opt("linger.ms", "5")]);
}

#[test]
fn validate_defaults_bootstrap_servers() {
    let mut c = config(1000);
    c.log_level = Some(KafkaLogLevel::Debug);
    assert_eq!(c.validate(Some("broker-a:9092")), Ok(()));
    assert_eq!(c.kafka_options, vec![opt("bootstrap.servers", "broker-a:9092")]);
    assert_eq!(c.log_level, Some(KafkaLogLevel::Debug));
}

#[test]
fn validate_falls_back_to_localhost() {
    let mut c = config(1000);
    c.kafka_options.push(opt("acks", "all"));
    assert_eq!(c.validate(None), Ok(()));
    assert_eq!(
        c.kafka_options,
        vec![opt("acks", "all"), opt("bootstrap.servers", "localhost")]
    );
}

#[test]
fn validate_keeps_configured_brokers() {
    let mut c = config(1000);
    c.kafka_options.push(opt("bootstrap.servers", "broker:9092"));
    assert_eq!(c.validate(None), Ok(()));
    assert_eq!(c.kafka_options, vec![opt("bootstrap.servers", "broker:9092")]);
}

#[test]
fn validate_rejects_zero_ceiling() {
    let mut c = config(0);
    assert_eq!(c.validate(Some("broker:9092")), Err(ConfigError::ZeroInflightLimit));
    assert!(c.kafka_options.is_empty());
}

#[test]
fn endpoint_takes_topic_and_ceiling() {
    let (ep, _signal) = KafkaOutputEndpoint::new(&config(7));
    assert_eq!(ep.topic(), "output");
    assert_eq!(ep.max_inflight_messages(), 7);
}

#[test]
fn capacity_boundaries() {
    let (ep, _signal) = KafkaOutputEndpoint::new(&config(3));
    assert!(ep.has_capacity(-1));
    assert!(ep.has_capacity(0));
    assert!(ep.has_capacity(2));
    assert!(!ep.has_capacity(3));
    assert!(!ep.has_capacity(4));
    assert!(!ep.has_capacity(i32::MAX));
}

#[test]
fn push_below_ceiling_does_not_wait() {
    let (mut ep, _signal) = KafkaOutputEndpoint::new(&config(5));
    let start = Instant::now();
    for _ in 0..20 {
        assert!(ep.wait_for_capacity(4));
    }
    assert!(start.elapsed() < Duration::from_millis(OUTPUT_POLLING_INTERVAL_MS));
}

#[test]
fn push_over_ceiling_waits_one_interval() {
    let (mut ep, _signal) = KafkaOutputEndpoint::new(&config(1));
    assert!(ep.wait_for_capacity(0));
    let start = Instant::now();
    assert!(!ep.wait_for_capacity(2));
    let waited = start.elapsed();
    assert!(waited >= Duration::from_millis(OUTPUT_POLLING_INTERVAL_MS - 10));
    assert!(waited < Duration::from_millis(10 * OUTPUT_POLLING_INTERVAL_MS));
}

#[test]
fn ceiling_one_holds_second_push_until_first_outcome() {
    let (mut ep, signal) = KafkaOutputEndpoint::new(&config(1));
    let mut ctx = KafkaOutputContext::new(signal);
    // push(A) with nothing in flight goes ahead at once.
    assert!(ep.wait_for_capacity(0));
    // push(B) while A is unacknowledged is refused and waits a polling
    // interval before it looks at the count again.
    let start = Instant::now();
    assert!(!ep.wait_for_capacity(1));
    assert!(start.elapsed() >= Duration::from_millis(OUTPUT_POLLING_INTERVAL_MS - 10));
    assert!(!ep.wait_for_capacity(1));
    // Once A's outcome is handled and the count has dropped, B goes ahead.
    assert_eq!(ctx.report(DeliveryOutcome::Delivered), None);
    ctx.delivery();
    assert!(ep.wait_for_capacity(0));
}

#[test]
fn stale_signal_does_not_cut_wait_short() {
    let mut gate = FlowGate::new();
    let mut signal = gate.signal_handle();
    signal.signal();
    signal.signal();
    let start = Instant::now();
    gate.wait_with_timeout(150);
    assert!(start.elapsed() >= Duration::from_millis(140));
}

#[test]
fn stale_delivery_signal_does_not_cut_push_wait_short() {
    let (mut ep, signal) = KafkaOutputEndpoint::new(&config(1));
    let mut ctx = KafkaOutputContext::new(signal);
    assert_eq!(ctx.report(DeliveryOutcome::Delivered), None);
    ctx.delivery();
    let start = Instant::now();
    assert!(!ep.wait_for_capacity(5));
    assert!(start.elapsed() >= Duration::from_millis(OUTPUT_POLLING_INTERVAL_MS - 10));
}

#[test]
fn success_outcome_reports_nothing() {
    let (_ep, signal) = KafkaOutputEndpoint::new(&config(1));
    let mut ctx = KafkaOutputContext::new(signal);
    assert_eq!(ctx.report(DeliveryOutcome::Delivered), None);
    ctx.delivery();
}

#[test]
fn failure_outcome_reports_non_fatal_error() {
    let (_ep, signal) = KafkaOutputEndpoint::new(&config(1));
    let mut ctx = KafkaOutputContext::new(signal);
    assert_eq!(
        ctx.report(DeliveryOutcome::Failed),
        Some(AsyncErrorReport { is_fatal: false })
    );
    ctx.delivery();
    assert_eq!(ctx.report(DeliveryOutcome::Delivered), None);
    ctx.delivery();
}

#[test]
fn udf_file_name_appends_extension() {
    let req = UdfRequest { name: "my_udf".to_string(), definition: "fn f() {}".to_string() };
    assert_eq!(req.file_name(), "my_udf.rs");
}

#[test]
fn udf_compiler_args() {
    assert_eq!(
        UdfRequest::compiler_args("f.rs"),
        vec!["test.sql", "--udf", "f.rs", "--handles", "-o", "output.rs"]
    );
}

#[test]
fn udf_reply_messages() {
    assert_eq!(UdfResponse::created("f").message, "UDF f created");
    assert_eq!(UdfResponse::failed("boom").message, "Failed to create UDF: boom");
}
