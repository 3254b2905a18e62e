use warlock::command::{command, failure, run_cmd, run_cmd_output, CommandOutcome};
use warlock::decimal::{all_digits_from, decimal_text, parse_u64};
use warlock::text::{
    chars_of, ends_with, find_after, is_text, is_white, join_path, same_text, split_fields,
    split_lines, split_words, starts_with, string_of, strip_leading, strip_trailing, trim_text,
};

fn strings(parts: Vec<Vec<char>>) -> Vec<String> {
    parts.iter().map(|p| string_of(p)).collect()
}

#[test]
fn lines_are_those_of_std() {
    for s in ["", "\n", "a", "a\n", "a\r\nb\r", "\r\n\n", "a\rb\n\r", "x\n\ny"] {
        let expected: Vec<String> = s.lines().map(String::from).collect();
        assert_eq!(strings(split_lines(&chars_of(s))), expected, "{:?}", s);
    }
}

#[test]
fn words_are_those_of_std() {
    for s in ["", "  ", "a", " a\tb\u{3000}c ", "\u{a0}x\u{2028}y\u{85}", "\u{200b}z"] {
        let expected: Vec<String> = s.split_whitespace().map(String::from).collect();
        assert_eq!(strings(split_words(&chars_of(s))), expected, "{:?}", s);
        assert_eq!(trim_text(s), s.trim(), "{:?}", s);
    }
}

#[test]
fn white_space_is_that_of_std() {
    for n in 0..0x1_0000u32 {
        if let Some(c) = char::from_u32(n) {
            assert_eq!(is_white(c), c.is_whitespace(), "{:x}", n);
        }
    }
}

#[test]
fn fields_are_those_of_std() {
    for s in ["", ":", "a:b", ":a::b:"] {
        let expected: Vec<String> = s.split(':').map(String::from).collect();
        assert_eq!(strings(split_fields(&chars_of(s), ':')), expected, "{:?}", s);
    }
}

#[test]
fn affixes() {
    let s = chars_of("vvab::");
    assert!(starts_with(&s, "vv"));
    assert!(starts_with(&s, ""));
    assert!(!starts_with(&s, "vvab:::"));
    assert!(ends_with(&s, "b::"));
    assert!(!ends_with(&s, "xvvab::"));
    assert_eq!(string_of(&strip_leading(&s, 'v')), "ab::");
    assert_eq!(string_of(&strip_trailing(&s, ':')), "vvab");
    assert_eq!(find_after(&s, "va").map(|r| string_of(&r)), Some("b::".to_string()));
    assert_eq!(find_after(&s, "x"), None);
    assert!(is_text(&s, "vvab::"));
    assert!(same_text("a", "a"));
    assert!(!same_text("a", "ab"));
}

#[test]
fn decimal_numbers_are_those_of_std() {
    for n in [0u64, 7, 10, 99, 100, 12345, u64::MAX] {
        assert_eq!(decimal_text(n), n.to_string());
        assert_eq!(parse_u64(&chars_of(&n.to_string())), Some(n));
    }
    for s in ["", "+", "-", "-1", "+1", "++1", "01", " 1", "1a", "18446744073709551616", "99999999999999999999999"] {
        assert_eq!(parse_u64(&chars_of(s)), s.parse::<u64>().ok(), "{:?}", s);
    }
    assert!(all_digits_from(&chars_of("fc12"), 2));
    assert!(!all_digits_from(&chars_of("fc12"), 1));
}

#[test]
fn paths_are_joined() {
    assert_eq!(join_path("/a", "b"), "/a/b");
    assert_eq!(join_path("/a/", "b"), "/a/b");
    assert_eq!(join_path("", "b"), "b");
}

#[test]
fn commands_are_judged() {
    let line = command("ip", vec!["link", "show"]);
    let done = CommandOutcome::Finished {
        success: true,
        stdout: "out".to_string(),
        stderr: "err".to_string(),
    };
    assert_eq!(run_cmd(&line, &done), Ok(()));
    assert_eq!(run_cmd_output(&line, &done), Ok("out".to_string()));
    let failed = CommandOutcome::Finished {
        success: false,
        stdout: "out".to_string(),
        stderr: " err\n".to_string(),
    };
    assert_eq!(run_cmd(&line, &failed), Err("ip link show failed: err".to_string()));
    assert_eq!(run_cmd_output(&line, &failed), Err("ip link show failed: err".to_string()));
    assert_eq!(
        run_cmd(&line, &CommandOutcome::NotStarted),
        Err("Failed to execute 'ip'".to_string())
    );
    let f = failure("context", "cause".to_string());
    assert_eq!(f.context, "context");
    assert_eq!(f.cause, "cause");
}
