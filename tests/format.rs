use file_logger::line::{format_line, record_text, Level};

#[test]
fn info_line_is_exact() {
    assert_eq!(
        format_line(Level::Info, 1700000000123, "app::mod", "hello"),
        "[INFO ] 1700000000123 [app::mod] hello"
    );
}

#[test]
fn every_level_is_padded_to_five() {
    assert_eq!(format_line(Level::Error, 7, "t", "m"), "[ERROR] 7 [t] m");
    assert_eq!(format_line(Level::Warn, 7, "t", "m"), "[WARN ] 7 [t] m");
    assert_eq!(format_line(Level::Info, 7, "t", "m"), "[INFO ] 7 [t] m");
    assert_eq!(format_line(Level::Debug, 7, "t", "m"), "[DEBUG] 7 [t] m");
    assert_eq!(format_line(Level::Trace, 7, "t", "m"), "[TRACE] 7 [t] m");
}

#[test]
fn padded_names() {
    assert_eq!(Level::Warn.padded_name(), "WARN ");
    assert_eq!(Level::Trace.padded_name(), "TRACE");
}

#[test]
fn zero_and_largest_timestamps() {
    assert_eq!(format_line(Level::Debug, 0, "a", "b"), "[DEBUG] 0 [a] b");
    assert_eq!(
        format_line(Level::Debug, u64::MAX, "a", "b"),
        "[DEBUG] 18446744073709551615 [a] b"
    );
    assert_eq!(format_line(Level::Debug, 10, "a", "b"), "[DEBUG] 10 [a] b");
}

#[test]
fn empty_target_and_message() {
    assert_eq!(format_line(Level::Error, 5, "", ""), "[ERROR] 5 [] ");
}

#[test]
fn record_text_ends_the_line() {
    assert_eq!(
        record_text(Level::Warn, 99, "app::mod", "hello"),
        "[WARN ] 99 [app::mod] hello\n"
    );
}

#[test]
fn message_with_non_ascii_text() {
    assert_eq!(
        format_line(Level::Info, 3, "ünï", "héllo → wörld"),
        "[INFO ] 3 [ünï] héllo → wörld"
    );
}
