use bhuiz::log_line::format_log_line;

#[test]
fn log_line_with_file_and_line() {
    let s = format_log_line("2024-01-02 03:04:05.006", "INFO", "engine", Some("src/main.rs"), Some(42), "started");
    assert_eq!(s, "[2024-01-02 03:04:05.006] [INFO] engine (src/main.rs:42): started");
}

#[test]
fn log_line_unknown_file_and_line() {
    let s = format_log_line("t", "DEBUG", "x", None, None, "m");
    assert_eq!(s, "[t] [DEBUG] x (<Unknown>:<Unknown>): m");
}

#[test]
fn log_line_numbers() {
    assert_eq!(format_log_line("", "", "", Some("f"), Some(0), ""), "[] []  (f:0): ");
    assert_eq!(format_log_line("", "", "", Some("f"), Some(4294967295), ""), "[] []  (f:4294967295): ");
    assert_eq!(format_log_line("", "", "", Some("f"), Some(10), ""), "[] []  (f:10): ");
}
