use elega_core::logger::LOG_LEVEL_ERROR;
use elega_core::logger::LOG_LEVEL_INFO;
use elega_core::logger::LOG_LEVEL_VERBOSE;
use elega_core::CoreError;
use elega_core::LogMessage;
use elega_core::Logger;

fn message(time: &str, level: u8, text: &str) -> LogMessage {
    LogMessage { time: time.to_string(), level, message: text.to_string() }
}

#[test]
fn fresh_logger_has_everything_off() {
    let logger = Logger::new();
    assert!(!logger.print_all_on);
    assert!(!logger.print_asap);
    assert_eq!(logger.file_path, "");
    assert_eq!(logger.messages.len(), 0);
}

#[test]
fn info_is_buffered_once_while_echoing() {
    let mut logger = Logger::new();
    logger.print_asap = true;
    logger.log_info("test");
    assert_eq!(logger.messages.len(), 1);
    assert_eq!(logger.messages[0].level, LOG_LEVEL_INFO);
    assert_eq!(logger.messages[0].message, "test");
}

#[test]
fn log_calls_keep_their_order_and_levels() {
    let mut logger = Logger::new();
    logger.print_all_on = true;
    logger.log_info("one");
    logger.log_error("two");
    logger.log_verbose("three");
    assert_eq!(logger.messages.len(), 3);
    assert_eq!(logger.messages[0].level, LOG_LEVEL_INFO);
    assert_eq!(logger.messages[0].message, "one");
    assert_eq!(logger.messages[1].level, LOG_LEVEL_ERROR);
    assert_eq!(logger.messages[1].message, "two");
    assert_eq!(logger.messages[2].level, LOG_LEVEL_VERBOSE);
    assert_eq!(logger.messages[2].message, "three");
}

#[test]
fn timestamps_are_taken_at_arrival() {
    let mut logger = Logger::new();
    logger.log_info("stamped");
    assert!(logger.messages[0].time.contains('T'));
}

#[test]
fn verbose_is_discarded_unless_recording_all() {
    let mut logger = Logger::new();
    logger.log_verbose("gone");
    assert_eq!(logger.messages.len(), 0);
    logger.log_error("kept");
    assert_eq!(logger.messages.len(), 1);
    logger.print_all_on = true;
    logger.log_verbose("kept too");
    assert_eq!(logger.messages.len(), 2);
    assert_eq!(logger.messages[1].level, LOG_LEVEL_VERBOSE);
}

#[test]
fn publish_without_destination_is_refused() {
    let mut logger = Logger::new();
    logger.log_info("kept either way\n");
    assert_eq!(logger.publish(), Err(CoreError::MissingDestination));
    assert_eq!(logger.messages.len(), 1);
    assert_eq!(logger.messages[0].message, "kept either way\n");
}

#[test]
fn publish_serializes_records_in_arrival_order() {
    let mut logger = Logger::new();
    logger.file_path = "run.log".to_string();
    logger.messages.push(message("T1", LOG_LEVEL_INFO, "first\n"));
    logger.messages.push(message("T2", LOG_LEVEL_ERROR, "second\n"));
    logger.messages.push(message("T3", LOG_LEVEL_VERBOSE, "third\n"));
    let content = logger.publish().unwrap();
    assert_eq!(content, "T1 | INFO | first\nT2 | ERROR | second\nT3 | VERBOSE | third\n");
}

#[test]
fn records_supply_their_own_separators() {
    let mut logger = Logger::new();
    logger.file_path = "run.log".to_string();
    logger.messages.push(message("T1", LOG_LEVEL_INFO, "no newline"));
    logger.messages.push(message("T2", LOG_LEVEL_INFO, "next"));
    let content = logger.publish().unwrap();
    assert_eq!(content, "T1 | INFO | no newlineT2 | INFO | next");
}

#[test]
fn unrecognized_level_serializes_as_unknown() {
    let mut logger = Logger::new();
    logger.file_path = "run.log".to_string();
    logger.messages.push(message("T1", 9, "odd\n"));
    let content = logger.publish().unwrap();
    assert_eq!(content, "T1 | UNKNOWN | odd\n");
}

#[test]
fn publishing_twice_emits_the_full_history() {
    let mut logger = Logger::new();
    logger.file_path = "run.log".to_string();
    logger.messages.push(message("T1", LOG_LEVEL_INFO, "first\n"));
    let first = logger.publish().unwrap();
    let again = logger.publish().unwrap();
    assert_eq!(first, again);
    logger.messages.push(message("T2", LOG_LEVEL_ERROR, "second\n"));
    let second = logger.publish().unwrap();
    assert!(second.starts_with(&first));
    assert_eq!(second, "T1 | INFO | first\nT2 | ERROR | second\n");
    assert_eq!(logger.messages.len(), 2);
}

#[test]
fn empty_buffer_publishes_empty_content() {
    let mut logger = Logger::new();
    logger.file_path = "run.log".to_string();
    assert_eq!(logger.publish().unwrap(), "");
}
