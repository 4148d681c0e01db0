use saga_stdlib::log::{emit, LogBuffer, LogLevel, LOG_BUFFER_BYTES};

const NOTICE: &str = "<message exceeded 1KiB log buffer; truncated>";

/// Writes the pieces in order, stopping at the first refused one, as a
/// formatter does; returns the buffer and whether every piece was written.
fn format_pieces(parts: &[&str]) -> (LogBuffer, bool) {
    let mut buf = LogBuffer::new();
    for p in parts {
        if !buf.write_str(p) {
            return (buf, false);
        }
    }
    (buf, true)
}

#[test]
fn level_codes_follow_the_host_abi() {
    assert_eq!(LogLevel::Trace.code(), 0);
    assert_eq!(LogLevel::Debug.code(), 1);
    assert_eq!(LogLevel::Info.code(), 2);
    assert_eq!(LogLevel::Warn.code(), 3);
    assert_eq!(LogLevel::Error.code(), 4);
}

#[test]
fn emit_joins_the_formatted_pieces() {
    let (buf, ok) = format_pieces(&["now=", "12", " ms"]);
    assert!(ok);
    let (level, msg) = emit(LogLevel::Info, &buf, ok);
    assert_eq!(level, 2);
    assert_eq!(msg, "now=12 ms");
}

#[test]
fn emit_of_nothing_is_empty() {
    let buf = LogBuffer::new();
    let (level, msg) = emit(LogLevel::Error, &buf, true);
    assert_eq!(level, 4);
    assert_eq!(msg, "");
}

#[test]
fn a_message_that_fills_the_buffer_exactly_is_kept() {
    let full = "x".repeat(LOG_BUFFER_BYTES);
    let (buf, ok) = format_pieces(&[&full[..1000], &full[1000..]]);
    assert!(ok);
    let (_, msg) = emit(LogLevel::Debug, &buf, ok);
    assert_eq!(msg, full);
}

#[test]
fn a_piece_that_does_not_fit_is_refused() {
    let mut buf = LogBuffer::new();
    assert!(buf.write_str(&"y".repeat(1020)));
    assert!(!buf.write_str("12345"));
    assert!(buf.write_str("1234"));
    assert!(!buf.write_str("z"));
    let (_, msg) = emit(LogLevel::Info, &buf, true);
    assert_eq!(msg, format!("{}1234", "y".repeat(1020)));
}

#[test]
fn an_oversized_message_becomes_the_notice() {
    let long = "x".repeat(LOG_BUFFER_BYTES + 1);
    let (buf, ok) = format_pieces(&[&long]);
    assert!(!ok);
    let (level, msg) = emit(LogLevel::Warn, &buf, ok);
    assert_eq!(level, 3);
    assert_eq!(msg, NOTICE);
    let (buf, ok) = format_pieces(&["a", &"y".repeat(1023), "b", "c"]);
    assert!(!ok);
    assert_eq!(emit(LogLevel::Warn, &buf, ok).1, NOTICE);
}

#[test]
fn the_buffer_counts_bytes_not_characters() {
    let fits = "é".repeat(LOG_BUFFER_BYTES / 2);
    let (buf, ok) = format_pieces(&[&fits]);
    assert!(ok);
    assert_eq!(emit(LogLevel::Info, &buf, ok).1, fits);
    let too_long = "é".repeat(LOG_BUFFER_BYTES / 2 + 1);
    let (buf, ok) = format_pieces(&[&too_long]);
    assert!(!ok);
    assert_eq!(emit(LogLevel::Info, &buf, ok).1, NOTICE);
}

#[test]
fn emit_logs_the_notice_when_formatting_failed() {
    let (buf, _) = format_pieces(&["partial"]);
    let (level, msg) = emit(LogLevel::Trace, &buf, false);
    assert_eq!(level, 0);
    assert_eq!(msg, NOTICE);
}
