use heartbeat_pusher::logging::{format_line, log_line, Level, LogEntry, TIMESTAMP_FORMAT};

#[test]
fn levels_have_their_labels() {
    assert_eq!(Level::Info.label(), "INFO");
    assert_eq!(Level::Error.label(), "ERROR");
}

#[test]
fn entries_are_made_with_their_level() {
    assert_eq!(
        LogEntry::info("up"),
        LogEntry { level: Level::Info, message: String::from("up") }
    );
    assert_eq!(
        LogEntry::error("down"),
        LogEntry { level: Level::Error, message: String::from("down") }
    );
}

#[test]
fn line_holds_timestamp_level_and_message() {
    let entry = LogEntry::info("Heartbeat sent successfully.");
    assert_eq!(
        format_line("2024-03-09 07:05:01", &entry),
        "[2024-03-09 07:05:01] [INFO] Heartbeat sent successfully."
    );
    let entry = LogEntry::error("Failed to send heartbeat: timed out");
    assert_eq!(
        format_line("1999-12-31 23:59:59", &entry),
        "[1999-12-31 23:59:59] [ERROR] Failed to send heartbeat: timed out"
    );
}

#[test]
fn line_keeps_an_empty_message_and_brackets_in_it() {
    assert_eq!(format_line("t", &LogEntry::info("")), "[t] [INFO] ");
    assert_eq!(format_line("", &LogEntry::error("[x] y")), "[] [ERROR] [x] y");
}

#[test]
fn timestamp_format_is_date_and_time() {
    assert_eq!(TIMESTAMP_FORMAT, "%Y-%m-%d %H:%M:%S");
}

fn is_digit(c: char) -> bool {
    ('0'..='9').contains(&c)
}

#[test]
fn log_line_is_stamped_with_the_local_time() {
    let line = log_line(&LogEntry::info("hello"));
    let chars: Vec<char> = line.chars().collect();
    let tail: Vec<char> = "] [INFO] hello".chars().collect();
    assert!(chars.len() >= 1 + 19 + tail.len());
    assert_eq!(chars[0], '[');
    assert_eq!(chars[chars.len() - tail.len()..], tail[..]);
    let stamp = &chars[1..chars.len() - tail.len()];
    let n = stamp.len();
    assert!(n >= 19);
    let shape = "-dd-dd dd:dd:dd";
    for (i, mark) in shape.chars().enumerate() {
        let c = stamp[n - 15 + i];
        if mark == 'd' {
            assert!(is_digit(c));
        } else {
            assert_eq!(c, mark);
        }
    }
    for c in &stamp[n - 19..n - 15] {
        assert!(is_digit(*c));
    }
    assert!(!line.contains('%'));
}

#[test]
fn log_line_agrees_with_format_line() {
    let entry = LogEntry::error("Received non-2xx status code: 500 Internal Server Error");
    let line = log_line(&entry);
    let close = line.find(']').unwrap();
    let stamp = &line[1..close];
    assert_eq!(line, format_line(stamp, &entry));
}
