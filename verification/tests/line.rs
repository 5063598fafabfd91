use pinelog::line::{compose_line, compose_record};

#[test]
fn line_is_stamp_tag_message() {
    assert_eq!(compose_line("12:00:00", "WARN", "y"), "12:00:00 [WARN] y");
    assert_eq!(
        compose_line("2024-02-29 23:59:59", "ERROR", "disk full"),
        "2024-02-29 23:59:59 [ERROR] disk full"
    );
}

#[test]
fn line_without_stamp_starts_with_a_space() {
    assert_eq!(compose_line("", "INFO", "x"), " [INFO] x");
}

#[test]
fn line_keeps_the_message_verbatim() {
    assert_eq!(compose_line("", "INFO", ""), " [INFO] ");
    assert_eq!(compose_line("", "INFO", "  a [b] c  "), " [INFO]   a [b] c  ");
    assert_eq!(compose_line("", "INFO", "naïve → ok"), " [INFO] naïve → ok");
    assert_eq!(compose_line("", "INFO", "two\nlines"), " [INFO] two\nlines");
}

#[test]
fn line_carries_a_coloured_tag_as_it_is() {
    assert_eq!(
        compose_line("09:30:00", "\x1b[32mINFO\x1b[0m", "ready"),
        "09:30:00 [\x1b[32mINFO\x1b[0m] ready"
    );
}

#[test]
fn record_is_the_line_and_a_line_break() {
    assert_eq!(compose_record("12:00:00", "WARN", "y"), "12:00:00 [WARN] y\n");
    assert_eq!(compose_record("", "INFO", "x"), " [INFO] x\n");
    assert_eq!(compose_record("", "ERROR", ""), " [ERROR] \n");
}
