use compute_logger::{DatadogLog, Level, Metadata, Record, Sink};
use serde_json::Value;
use std::cell::{Cell, RefCell};

/// A sink that answers `enabled` with a fixed value and notes every call.
struct MockLog {
    answer: bool,
    enabled_calls: RefCell<Vec<Metadata>>,
    log_calls: RefCell<Vec<Record>>,
    flush_calls: Cell<usize>,
}

impl MockLog {
    fn answering(answer: bool) -> MockLog {
        MockLog {
            answer,
            enabled_calls: RefCell::new(Vec::new()),
            log_calls: RefCell::new(Vec::new()),
            flush_calls: Cell::new(0),
        }
    }
}

impl Sink for MockLog {
    fn enabled(&self, metadata: &Metadata) -> bool {
        self.enabled_calls.borrow_mut().push(metadata.clone());
        self.answer
    }

    fn log(&self, record: &Record) {
        self.log_calls.borrow_mut().push(record.clone());
    }

    fn flush(&self) {
        self.flush_calls.set(self.flush_calls.get() + 1);
    }
}

/// Writes a line to standard output, as a program around the decorator does.
fn write_line(line: &str) {
    println!("{}", line);
}

/// A sink that takes everything and notes the order of what happens.
struct OrderLog<'a> {
    order: &'a RefCell<Vec<&'static str>>,
}

impl<'a> Sink for OrderLog<'a> {
    fn enabled(&self, _metadata: &Metadata) -> bool {
        self.order.borrow_mut().push("enabled");
        true
    }

    fn log(&self, _record: &Record) {
        self.order.borrow_mut().push("log");
    }

    fn flush(&self) {
        self.order.borrow_mut().push("flush");
    }
}

fn some_record() -> Record {
    Record::new(
        Metadata::new(Level::Debug, "SomeTarget"),
        &format!("Some {}", "args"),
        Some("module_path"),
        Some("file.rs"),
        Some(123),
    )
}

#[test]
fn enabled_calls_nested_log_enabled() {
    let nested = MockLog::answering(true);

    let metadata = Metadata::new(Level::Debug, "target");

    let expected_metadata = metadata.clone();

    let datadog_log = DatadogLog::new("SOURCE", "TAGS", "HOSTNAME", "SERVICE", nested);

    assert!(datadog_log.enabled(&metadata));

    let nested = datadog_log.nested();
    assert_eq!(*nested.enabled_calls.borrow(), vec![expected_metadata]);
    assert!(nested.log_calls.borrow().is_empty());
    assert_eq!(nested.flush_calls.get(), 0);
}

#[test]
fn enabled_answers_as_nested_log_does() {
    let metadata = Metadata::new(Level::Error, "target");
    let datadog_log =
        DatadogLog::new("SOURCE", "TAGS", "HOSTNAME", "SERVICE", MockLog::answering(false));

    assert!(!datadog_log.enabled(&metadata));

    assert_eq!(datadog_log.nested().enabled_calls.borrow().len(), 1);
}

#[test]
fn flush_calls_nested_log_flush() {
    let nested = MockLog::answering(true);

    let datadog_log = DatadogLog::new("SOURCE", "TAGS", "HOSTNAME", "SERVICE", nested);

    datadog_log.flush();

    let nested = datadog_log.nested();
    assert_eq!(nested.flush_calls.get(), 1);
    assert!(nested.enabled_calls.borrow().is_empty());
    assert!(nested.log_calls.borrow().is_empty());
}

#[test]
fn log_calls_nested_log_with_metadata() {
    let nested = MockLog::answering(true);

    let datadog_log = DatadogLog::new("SOURCE", "TAGS", "HOSTNAME", "SERVICE", nested);

    datadog_log.log(
        &Record::new(
            Metadata::new(Level::Debug, "SomeTarget"),
            &format!("Some {}", "args"),
            Some("module_path"),
            Some("file.rs"),
            Some(123),
        ),
        write_line,
    );

    let nested = datadog_log.nested();
    let log_calls = nested.log_calls.borrow();
    assert_eq!(log_calls.len(), 1);
    let r = &log_calls[0];

    let record_matches = r.level() == Level::Debug
        && r.target() == "SomeTarget"
        && r.file() == Some("file.rs")
        && r.line() == Some(123)
        && r.module() == Some("module_path");

    let m = serde_json::from_str::<serde_json::Value>(r.message()).expect("Parsed JSON");

    let json_matches = m["ddsource"] == "SOURCE"
        && m["ddtags"] == "TAGS"
        && m["hostname"] == "HOSTNAME"
        && m["service"] == "SERVICE";

    let message_matches = match &m["message"] {
        Value::String(message) => message.ends_with(" DEBUG Some args"),
        _ => false,
    };

    assert!(record_matches && json_matches && message_matches);
    assert_eq!(m.as_object().expect("an object").len(), 5);
}

#[test]
fn log_does_not_call_nested_log_when_not_enabled() {
    let nested = MockLog::answering(false);

    let datadog_log = DatadogLog::new("SOURCE", "TAGS", "HOSTNAME", "SERVICE", nested);

    datadog_log.log(
        &Record::new(
            Metadata::new(Level::Debug, "SomeTarget"),
            &format!("Some {}", "args"),
            Some("module_path"),
            Some("file.rs"),
            Some(123),
        ),
        write_line,
    );

    let nested = datadog_log.nested();
    assert!(nested.log_calls.borrow().is_empty());
    assert_eq!(nested.flush_calls.get(), 0);
}

#[test]
fn log_asks_nested_log_once_with_the_metadata_of_the_record() {
    let datadog_log =
        DatadogLog::new("SOURCE", "TAGS", "HOSTNAME", "SERVICE", MockLog::answering(true));
    let record = some_record();

    datadog_log.log(&record, write_line);

    let nested = datadog_log.nested();
    assert_eq!(*nested.enabled_calls.borrow(), vec![record.metadata().clone()]);
    assert_eq!(nested.log_calls.borrow().len(), 1);
}

#[test]
fn log_writes_nothing_when_not_enabled() {
    let datadog_log =
        DatadogLog::new("SOURCE", "TAGS", "HOSTNAME", "SERVICE", MockLog::answering(false));
    let lines = RefCell::new(Vec::new());

    datadog_log.log(&some_record(), |line: &str| lines.borrow_mut().push(line.to_string()));

    assert!(lines.borrow().is_empty());
    assert_eq!(datadog_log.nested().enabled_calls.borrow().len(), 1);
    assert!(datadog_log.nested().log_calls.borrow().is_empty());
}

#[test]
fn log_writes_the_line_that_it_forwards_as_message() {
    let datadog_log =
        DatadogLog::new("SOURCE", "TAGS", "HOSTNAME", "SERVICE", MockLog::answering(true));
    let lines = RefCell::new(Vec::new());

    datadog_log.log(&some_record(), |line: &str| lines.borrow_mut().push(line.to_string()));

    let lines = lines.borrow();
    assert_eq!(lines.len(), 1);
    assert!(lines[0].ends_with(" DEBUG Some args"));
    let log_calls = datadog_log.nested().log_calls.borrow();
    assert_eq!(log_calls.len(), 1);
    let m = serde_json::from_str::<Value>(log_calls[0].message()).expect("Parsed JSON");
    assert_eq!(m["message"], Value::String(lines[0].clone()));
}

#[test]
fn log_writes_the_line_before_it_forwards_the_record() {
    let order = RefCell::new(Vec::new());
    let datadog_log = DatadogLog::new(
        "SOURCE",
        "TAGS",
        "HOSTNAME",
        "SERVICE",
        OrderLog { order: &order },
    );

    datadog_log.log(&some_record(), |_line: &str| order.borrow_mut().push("line"));

    assert_eq!(*order.borrow(), vec!["enabled", "line", "log"]);
}

#[test]
fn forward_hands_the_record_of_the_emission_to_nested_log() {
    let datadog_log =
        DatadogLog::new("SOURCE", "TAGS", "HOSTNAME", "SERVICE", MockLog::answering(false));
    let emission = datadog_log.emission(&some_record(), "2024-03-01T12:00:00.123Z");

    datadog_log.forward(&emission);

    let nested = datadog_log.nested();
    assert_eq!(*nested.log_calls.borrow(), vec![emission.record().clone()]);
    assert!(nested.enabled_calls.borrow().is_empty());
}
