use bootstrap_macros::util::{console_for, get_local_datetime, Console, DateTime, Level};

const LEVELS: [Level; 6] =
    [Level::Severe, Level::Error, Level::Warning, Level::Info, Level::Verbose, Level::Debug];

#[test]
fn level_names() {
    let names: Vec<&str> = LEVELS.iter().map(|l| l.as_str()).collect();
    assert_eq!(names, vec!["Severe", "Error", "Warning", "Info", "Verbose", "Debug"]);
}

#[test]
fn level_upper_names() {
    let names: Vec<&str> = LEVELS.iter().map(|l| l.as_upper_str()).collect();
    assert_eq!(names, vec!["SEVERE", "ERROR", "WARNING", "INFO", "VERBOSE", "DEBUG"]);
}

#[test]
fn level_colors() {
    let colors: Vec<&str> = LEVELS.iter().map(|l| l.to_ansi_color()).collect();
    assert_eq!(
        colors,
        vec![
            "\x1B[97;41m",
            "\x1B[31;49m",
            "\x1B[33;49m",
            "\x1B[37;49m",
            "\x1B[90;49m",
            "\x1B[34;49m"
        ]
    );
}

#[test]
fn only_severe_and_error_go_to_stderr() {
    let to_stderr: Vec<bool> = LEVELS.iter().map(|l| l.should_write_to_stderr()).collect();
    assert_eq!(to_stderr, vec![true, true, false, false, false, false]);
}

#[test]
fn default_datetime_is_zero() {
    let DateTime { year, month, day, hour, minute, second } = get_local_datetime();
    assert_eq!((year, month, day, hour, minute, second), (0, 0, 0, 0, 0, 0));
}

#[test]
fn datetime_text_pads_to_two_digits() {
    let now = DateTime { year: 2024, month: 3, day: 9, hour: 7, minute: 5, second: 0 };
    assert_eq!(now.to_text(), "2024-03-09 07:05:00");
    let now = DateTime { year: 1999, month: 12, day: 31, hour: 23, minute: 59, second: 59 };
    assert_eq!(now.to_text(), "1999-12-31 23:59:59");
    assert_eq!(get_local_datetime().to_text(), "0-00-00 00:00:00");
    let odd = DateTime { year: 65535, month: 255, day: 100, hour: 10, minute: 9, second: 99 };
    assert_eq!(odd.to_text(), "65535-255-100 10:09:99");
}

#[test]
fn padded_names_are_seven_wide() {
    for level in LEVELS {
        assert_eq!(level.as_padded_upper_str(), format!("{:7}", level.as_upper_str()));
    }
}

#[test]
fn line_prefix_holds_timestamp_and_level() {
    let now = DateTime { year: 2024, month: 3, day: 9, hour: 7, minute: 5, second: 0 };
    assert_eq!(Level::Info.line_prefix(&now), "[2024-03-09 07:05:00][INFO   ] ");
    assert_eq!(Level::Warning.line_prefix(&now), "[2024-03-09 07:05:00][WARNING] ");
}

#[test]
fn severe_limit_counts_as_error() {
    assert_eq!(Level::Severe.effective_limit(), Level::Error);
    for level in [Level::Error, Level::Warning, Level::Info, Level::Verbose, Level::Debug] {
        assert_eq!(level.effective_limit(), level);
    }
}

#[test]
fn limit_drops_more_verbose_lines_only() {
    let passes: Vec<bool> = LEVELS.iter().map(|l| l.should_log(Level::Info)).collect();
    assert_eq!(passes, vec![true, true, true, true, false, false]);
    let passes: Vec<bool> = LEVELS.iter().map(|l| l.should_log(Level::Severe)).collect();
    assert_eq!(passes, vec![true, true, false, false, false, false]);
    let passes: Vec<bool> = LEVELS.iter().map(|l| l.should_log(Level::Debug)).collect();
    assert_eq!(passes, vec![true; 6]);
}

#[test]
fn console_prefers_stdout() {
    assert_eq!(console_for(true, true), Console::Stdout);
    assert_eq!(console_for(true, false), Console::Stdout);
    assert_eq!(console_for(false, true), Console::Stderr);
    assert_eq!(console_for(false, false), Console::Silent);
}
