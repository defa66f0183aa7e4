use console_logger::digits::{code_string, dec_string};
use console_logger::{log, AnsiColors, Level, LoggerBuilder, Stream};

#[test]
fn plain_render_has_no_extras_for_every_severity() {
    let cases = [
        (Level::Info, "[INFO] some message"),
        (Level::Warn, "[WARN] some message"),
        (Level::Error, "[ERROR] some message"),
        (Level::Debug, "[DEBUG] some message"),
    ];
    for (level, expected) in cases {
        let record = log(String::from("some message")).no_color().build(level);
        assert_eq!(record.render().unwrap(), expected);
    }
}

#[test]
fn colored_render_has_no_extras_for_every_severity() {
    let cases = [
        (Level::Info, "\x1b[32m[INFO]\x1b[0m m"),
        (Level::Warn, "\x1b[33m[WARN]\x1b[0m m"),
        (Level::Error, "\x1b[31m[ERROR]\x1b[0m m"),
        (Level::Debug, "\x1b[34m[DEBUG]\x1b[0m m"),
    ];
    for (level, expected) in cases {
        let record = log(String::from("m")).build(level);
        assert_eq!(record.render().unwrap(), expected);
    }
}

#[test]
fn code_zero_still_renders_a_suffix() {
    let record = log(String::from("m")).no_color().code(0).info();
    assert_eq!(record.render().unwrap(), "[INFO] m (code 0)");
}

#[test]
fn omitted_code_renders_no_suffix() {
    let record = log(String::from("m")).no_color().info();
    assert_eq!(record.render().unwrap(), "[INFO] m");
}

#[test]
fn last_code_wins() {
    let record = log(String::from("m")).no_color().code(1).code(7).info();
    assert_eq!(record.render().unwrap(), "[INFO] m (code 7)");
}

#[test]
fn timestamp_format_enables_timestamps() {
    let record = log(String::from("m"))
        .timestamp_format(String::from("TIME"))
        .no_color()
        .debug();
    assert_eq!(record.render().unwrap(), "[TIME] [DEBUG] m");
}

#[test]
fn timestamp_keeps_a_format_set_before() {
    let record = log(String::from("m"))
        .timestamp_format(String::from("TIME"))
        .timestamp()
        .no_color()
        .info();
    assert_eq!(record.render().unwrap(), "[TIME] [INFO] m");
}

#[test]
fn no_color_wins_over_any_scheme() {
    let mut scheme = AnsiColors::default();
    scheme.warn = String::from("\x1b[36m");
    let record = log(String::from("m")).colors(scheme).no_color().warn();
    let line = record.render().unwrap();
    assert_eq!(line, "[WARN] m");
    assert!(!line.contains('\u{1b}'));
}

#[test]
fn color_override_changes_exactly_one_severity() {
    let magenta = "\x1b[35m";
    let make = || log(String::from("m")).color_for_level(Level::Warn, String::from(magenta));
    assert_eq!(make().warn().render().unwrap(), "\x1b[35m[WARN]\x1b[0m m");
    assert_eq!(make().info().render().unwrap(), "\x1b[32m[INFO]\x1b[0m m");
    assert_eq!(make().error().render().unwrap(), "\x1b[31m[ERROR]\x1b[0m m");
    assert_eq!(make().debug().render().unwrap(), "\x1b[34m[DEBUG]\x1b[0m m");
}

#[test]
fn color_override_starts_from_the_scheme_in_effect() {
    let mut scheme = AnsiColors::default();
    scheme.info = String::from("\x1b[35m");
    scheme.reset = String::from("\x1b[39m");
    let make = || {
        log(String::from("m"))
            .colors(AnsiColors {
                info: scheme.info.clone(),
                warn: scheme.warn.clone(),
                error: scheme.error.clone(),
                debug: scheme.debug.clone(),
                reset: scheme.reset.clone(),
            })
            .color_for_level(Level::Debug, String::from("\x1b[36m"))
    };
    assert_eq!(make().debug().render().unwrap(), "\x1b[36m[DEBUG]\x1b[39m m");
    assert_eq!(make().info().render().unwrap(), "\x1b[35m[INFO]\x1b[39m m");
}

#[test]
fn empty_color_entry_renders_nothing_visible() {
    let record = log(String::from("m"))
        .color_for_level(Level::Info, String::new())
        .info();
    assert_eq!(record.render().unwrap(), "[INFO]\x1b[0m m");
}

#[test]
fn warn_and_error_route_to_the_error_stream() {
    assert_eq!(log(String::from("m")).warn().target(), Stream::Error);
    assert_eq!(log(String::from("m")).error().target(), Stream::Error);
    assert_eq!(log(String::from("m")).info().target(), Stream::Standard);
    assert_eq!(log(String::from("m")).debug().target(), Stream::Standard);
}

#[test]
fn timestamped_info_line_matches_the_expected_pattern() {
    let record = log(String::from("Hello, world!")).timestamp().code(42).info();
    assert_eq!(record.target(), Stream::Standard);
    let line = record.render().unwrap();
    let bytes = line.as_bytes();
    assert_eq!(bytes[0], b'[');
    for i in 1..20 {
        match i {
            5 | 8 => assert_eq!(bytes[i], b'-'),
            11 => assert_eq!(bytes[i], b' '),
            14 | 17 => assert_eq!(bytes[i], b':'),
            _ => assert!(bytes[i].is_ascii_digit()),
        }
    }
    assert_eq!(&line[20..22], "] ");
    assert_eq!(&line[22..], "\x1b[32m[INFO]\x1b[0m Hello, world! (code 42)");
}

#[test]
fn error_with_code_renders_the_default_colored_line() {
    let record = log(String::from("Something went wrong")).code(404).error();
    assert_eq!(record.target(), Stream::Error);
    assert_eq!(
        record.render().unwrap(),
        "\x1b[31m[ERROR]\x1b[0m Something went wrong (code 404)"
    );
}

#[test]
fn no_color_warn_renders_the_exact_plain_line() {
    let record = log(String::from("No colors here")).no_color().warn();
    assert_eq!(record.target(), Stream::Error);
    let line = record.render().unwrap();
    assert_eq!(line, "[WARN] No colors here");
    assert!(line.bytes().all(|b| b != 0x1b));
}

#[test]
fn empty_message_still_renders_the_surrounding_spaces() {
    let record = log(String::new()).no_color().info();
    assert_eq!(record.render().unwrap(), "[INFO] ");
}

#[test]
fn invalid_timestamp_pattern_yields_no_line() {
    let record = log(String::from("m")).timestamp_format(String::from("%Q")).info();
    assert!(record.render().is_none());
}

#[test]
fn compose_line_uses_the_given_timestamp_text() {
    let record = log(String::from("m")).timestamp().no_color().code(-3).warn();
    let line = record.compose_line("2020-01-02 03:04:05");
    assert_eq!(line, "[2020-01-02 03:04:05] [WARN] m (code -3)");
}

#[test]
fn compose_line_ignores_timestamp_text_when_disabled() {
    let record = log(String::from("m")).no_color().info();
    assert_eq!(record.compose_line("ignored"), "[INFO] m");
}

#[test]
fn severity_methods_render_like_render() {
    let record = log(String::from("m")).no_color().error();
    assert_eq!(record.error().unwrap(), "[ERROR] m");
    assert_eq!(record.info().unwrap(), "[ERROR] m");
    assert_eq!(record.warn().unwrap(), "[ERROR] m");
    assert_eq!(record.debug().unwrap(), "[ERROR] m");
}

#[test]
fn builder_defaults_match_a_fresh_record() {
    let record = LoggerBuilder::new(String::from("hi")).build(Level::Warn);
    assert_eq!(record.message, "hi");
    assert!(record.code.is_none());
    assert!(!record.timestamp);
    assert!(record.ts_format.is_none());
    assert!(record.colors.is_none());
    assert!(record.color_enabled);
}

#[test]
fn code_string_renders_exact_decimal_values() {
    assert_eq!(code_string(0), "0");
    assert_eq!(code_string(42), "42");
    assert_eq!(code_string(-3), "-3");
    assert_eq!(code_string(-123456), "-123456");
    assert_eq!(code_string(i32::MAX), "2147483647");
    assert_eq!(code_string(i32::MIN), "-2147483648");
}

#[test]
fn dec_string_renders_exact_decimal_values() {
    assert_eq!(dec_string(0), "0");
    assert_eq!(dec_string(10), "10");
    assert_eq!(dec_string(90210), "90210");
    assert_eq!(dec_string(u64::MAX), "18446744073709551615");
}
