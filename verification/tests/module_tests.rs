use bedrock::counter::Counter;
use bedrock::trace::{hello, TraceSink};

struct RecordingSink {
    lines: Vec<String>,
    status: i32,
}

impl TraceSink for RecordingSink {
    fn trace(&mut self, message: &str) -> i32 {
        self.lines.push(message.to_string());
        self.status
    }
}

#[test]
fn fresh_load_starts_at_zero() {
    let c = Counter::new();
    assert_eq!(c.get_value(), 0);
}

#[test]
fn increment_thrice_then_decrement() {
    let mut c = Counter::new();
    assert_eq!(c.increment(), 1);
    assert_eq!(c.increment(), 2);
    assert_eq!(c.increment(), 3);
    assert_eq!(c.decrement(), 2);
}

#[test]
fn decrement_from_fresh_load_holds_floor() {
    let mut c = Counter::new();
    assert_eq!(c.decrement(), 0);
    assert_eq!(c.get_value(), 0);
}

#[test]
fn set_get_reset_get() {
    let mut c = Counter::new();
    assert_eq!(c.set_value(42), 42);
    assert_eq!(c.get_value(), 42);
    assert_eq!(c.reset(), 0);
    assert_eq!(c.get_value(), 0);
}

#[test]
fn set_then_get_returns_the_value() {
    let mut c = Counter::new();
    c.increment();
    assert_eq!(c.set_value(7), 7);
    assert_eq!(c.get_value(), 7);
}

#[test]
fn decrement_at_floor_after_reaching_zero() {
    let mut c = Counter::new();
    c.increment();
    assert_eq!(c.decrement(), 0);
    assert_eq!(c.decrement(), 0);
}

#[test]
fn decrement_then_increment_restores_positive_value() {
    let mut c = Counter::new();
    c.set_value(5);
    assert_eq!(c.decrement(), 4);
    assert_eq!(c.increment(), 5);
}

#[test]
fn repeated_reads_return_the_same_value() {
    let mut c = Counter::new();
    c.set_value(9);
    assert_eq!(c.get_value(), 9);
    assert_eq!(c.get_value(), 9);
    assert_eq!(c.get_value(), 9);
    assert_eq!(c.get_value(), 9);
}

#[test]
fn reset_is_zero_after_any_history() {
    let mut c = Counter::new();
    c.increment();
    c.set_value(100);
    c.decrement();
    assert_eq!(c.reset(), 0);
    assert_eq!(c.get_value(), 0);
}

#[test]
fn increment_wraps_at_the_maximum() {
    let mut c = Counter::new();
    c.set_value(u32::MAX);
    assert_eq!(c.increment(), 0);
    assert_eq!(c.get_value(), 0);
}

#[test]
fn hello_returns_zero_and_hands_over_the_greeting() {
    let mut sink = RecordingSink { lines: Vec::new(), status: 0 };
    assert_eq!(hello(&mut sink), 0);
    assert_eq!(sink.lines, vec!["Hello from XRPL Smart Contract!".to_string()]);
}

#[test]
fn hello_returns_zero_when_the_sink_reports_failure() {
    let mut sink = RecordingSink { lines: Vec::new(), status: -1 };
    assert_eq!(hello(&mut sink), 0);
    assert_eq!(sink.lines.len(), 1);
}
