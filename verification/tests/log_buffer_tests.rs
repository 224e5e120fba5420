use givetray::log_buffer::{LogBuffer, MAX_LOG_LINES};

#[test]
fn keeps_lines_in_order_below_capacity() {
    let mut buffer = LogBuffer::new();
    for i in 0..10 {
        let rebuild = buffer.push_line(format!("line {i}"));
        assert!(!rebuild);
    }
    assert_eq!(buffer.len(), 10);
    let snapshot = buffer.snapshot();
    for i in 0..10 {
        assert_eq!(snapshot[i], format!("line {i}"));
    }
}

#[test]
fn evicts_oldest_past_capacity_keeping_recent_in_order() {
    let mut buffer = LogBuffer::new();
    let total = MAX_LOG_LINES + 3;
    for i in 0..total {
        let rebuild = buffer.push_line(format!("line {i}"));
        assert_eq!(rebuild, i >= MAX_LOG_LINES);
    }
    assert_eq!(buffer.len(), MAX_LOG_LINES);
    assert_eq!(buffer.line_at(0), &"line 3".to_string());
    assert_eq!(buffer.line_at(MAX_LOG_LINES - 1), &format!("line {}", total - 1));
    let snapshot = buffer.snapshot();
    for i in 0..MAX_LOG_LINES {
        assert_eq!(snapshot[i], format!("line {}", i + 3));
    }
}

#[test]
fn clear_empties_the_buffer() {
    let mut buffer = LogBuffer::new();
    buffer.push_line("one".to_string());
    buffer.push_line("two".to_string());
    buffer.clear();
    assert_eq!(buffer.len(), 0);
    assert!(buffer.snapshot().is_empty());
}
