use dnet::logging::{decimal_string, init_logging, Level, Logger, Logging};
use dnet::transport::Poll;
use dnet::void::Void;
use dnet::wall::Wall;

fn enabled_logger() -> Logger {
    let mut logger = Logger::new::<Void<u8, u8>>();
    logger.enable();
    logger
}

#[test]
fn new_logger_is_disabled_and_unnamed() {
    let logger = Logger::new::<Void<u8, u8>>();
    assert!(!logger.is_enabled());
    assert_eq!(logger.get_transport_name(), None);
    assert!(logger.log_open_success().is_none());
    let span = logger.span();
    assert_eq!(span.level, Level::Trace);
    assert_eq!(span.title, "dnet");
    assert_eq!(span.kind, "Void");
    assert_eq!(span.name, None);
}

#[test]
fn logger_for_already_named_transport_keeps_the_name() {
    let logger = Logger::new_for_already_named::<Wall<u8, u8>>("worker");
    assert_eq!(logger.get_transport_name(), Some("worker"));
    assert_eq!(logger.span().kind, "Wall");
    assert!(!logger.is_enabled());
}

#[test]
fn names_and_switches() {
    let mut logger = Logger::new::<Void<u8, u8>>();
    logger.set_transport_name(Some("left".to_string()));
    assert_eq!(logger.get_transport_name(), Some("left"));
    logger.enable();
    assert!(logger.is_enabled());
    logger.disable();
    assert!(!logger.is_enabled());
    logger.set_transport_name(None);
    assert_eq!(logger.get_transport_name(), None);
}

#[test]
fn records_carry_kind_name_level_and_text() {
    let mut logger = enabled_logger();
    logger.set_transport_name(Some("left".to_string()));
    let record = logger.log_open_success().unwrap();
    assert_eq!(record.level, Level::Info);
    assert_eq!(record.kind, "Void");
    assert_eq!(record.name.as_deref(), Some("left"));
    assert_eq!(record.text, "transport open");
    assert_eq!(record.message_type, None);
    assert_eq!(record.size_in_bytes, None);
}

#[test]
fn failure_records_append_the_error_text() {
    let logger = enabled_logger();
    let record = logger.log_sending_failure(&"boom").unwrap();
    assert_eq!(record.level, Level::Error);
    assert_eq!(record.text, "failed to send message: boom");
    let record = logger.log_open_failure(&42).unwrap();
    assert_eq!(record.text, "opening transport failed: 42");
    let record = logger.log_closed_failure(&"no").unwrap();
    assert_eq!(record.text, "failed to close transport: no");
}

#[test]
fn ready_logs_only_failures() {
    let logger = enabled_logger();
    assert!(logger.log_ready(&Poll::Ready(Ok::<(), &str>(()))).is_none());
    assert!(logger.log_ready(&Poll::<Result<(), &str>>::Pending).is_none());
    let record = logger.log_ready(&Poll::Ready(Err::<(), &str>("busy"))).unwrap();
    assert_eq!(record.text, "failed to become ready for sending: busy");
}

#[test]
fn sending_and_preparation_records() {
    let logger = enabled_logger();
    let record = logger.log_sending("u32", &Ok::<(), &str>(()), Some(4)).unwrap();
    assert_eq!(record.level, Level::Debug);
    assert_eq!(record.text, "message sent");
    assert_eq!(record.message_type.as_deref(), Some("u32"));
    assert_eq!(record.size_in_bytes, Some(4));
    let record = logger.log_message_preparation("u32", 10, 17, &Ok::<(), &str>(())).unwrap();
    assert_eq!(record.level, Level::Trace);
    assert_eq!(record.text, "prepared message for sending");
    assert_eq!(record.size_in_bytes, Some(7));
    let record = logger.log_message_staging("String", &Ok::<(), &str>(())).unwrap();
    assert_eq!(record.text, "staged message for sending");
}

#[test]
fn receiving_records() {
    let logger = enabled_logger();
    let record = logger.log_receiving("u8", &Poll::Ready(Some(Ok::<u8, &str>(1))), None).unwrap();
    assert_eq!(record.text, "received message");
    let record = logger.log_receiving("u8", &Poll::Ready(None::<Result<u8, &str>>), None).unwrap();
    assert_eq!(record.level, Level::Info);
    assert_eq!(record.text, "remote transport closed");
    let record = logger.log_receiving("u8", &Poll::Ready(Some(Err::<u8, &str>("bad"))), None).unwrap();
    assert_eq!(record.text, "failed to receive message: bad");
    assert!(logger.log_receiving("u8", &Poll::<Option<Result<u8, &str>>>::Pending, None).is_none());
    let record = logger.log_receive_from_void().unwrap();
    assert_eq!(record.level, Level::Warn);
    assert_eq!(record.text, "attempted to receive from void");
}

#[test]
fn flush_close_and_filter_records() {
    let logger = enabled_logger();
    assert_eq!(logger.log_flush(&Poll::Ready(Ok::<(), &str>(()))).unwrap().text, "outgoing messages flushed");
    assert_eq!(logger.log_close(&Poll::Ready(Ok::<(), &str>(()))).unwrap().text, "transport closed");
    assert_eq!(logger.log_remote_closed().unwrap().text, "remote transport closed");
    let record = logger.log_incoming_filtered_out("u8").unwrap();
    assert_eq!(record.text, "incoming message filtered out");
    assert_eq!(record.message_type.as_deref(), Some("u8"));
    assert_eq!(logger.log_outgoing_filtered_out("u8").unwrap().text, "outgoing message filtered out");
    assert_eq!(logger.log_message_arrived_unknown(Some(3)).unwrap().text, "new message arrived");
}

#[test]
fn disabled_logger_logs_nothing() {
    let logger = Logger::new::<Void<u8, u8>>();
    assert!(logger.log_sending_failure(&"boom").is_none());
    assert!(logger.log_receive_from_void().is_none());
    assert!(logger.log_flush(&Poll::Ready(Ok::<(), &str>(()))).is_none());
}

#[test]
fn kind_overrides() {
    let mut logger = Logger::new::<Void<u8, u8>>();
    logger.override_kind::<Wall<u8, u8>>();
    assert_eq!(logger.span().kind, "Wall");
    logger.override_kind_with_str("Unwrapping");
    assert_eq!(logger.span().kind, "Unwrapping");
    logger.override_kind_buffered::<Void<u8, u8>>();
    assert_eq!(logger.span().kind, "Void(buffered)");
    logger.override_kind_part::<Wall<u8, u8>>(12);
    assert_eq!(logger.span().kind, "Wall(12)");
}

#[test]
fn decimal_strings() {
    assert_eq!(decimal_string(0), "0");
    assert_eq!(decimal_string(7), "7");
    assert_eq!(decimal_string(10), "10");
    assert_eq!(decimal_string(1234567), "1234567");
}

#[test]
fn init_logging_names_and_enables_both_sides() {
    let mut left: Void<u8, u8> = Default::default();
    let mut right: Wall<u8, u8> = Default::default();
    init_logging(&mut left, &mut right);
    assert!(left.is_logging_enabled());
    assert!(right.is_logging_enabled());
    assert_eq!(left.get_logging_name().as_deref(), Some("left"));
    assert_eq!(right.get_logging_name().as_deref(), Some("right"));
    left.disable_logging();
    assert!(!left.is_logging_enabled());
    left.set_logging_name("other");
    assert_eq!(left.get_logging_name().as_deref(), Some("other"));
}
