use stunnel_space::text::{concat2, concat3, join_strings, render_lines, split_lines, str_eq,
    str_has_prefix, trim_of};

fn lines_of(lines: &[&str]) -> Vec<String> {
    lines.iter().map(|l| l.to_string()).collect()
}

#[test]
fn trim_removes_blank_ends() {
    assert_eq!(trim_of("  hello\t "), "hello");
    assert_eq!(trim_of("hello"), "hello");
    assert_eq!(trim_of("   "), "");
    assert_eq!(trim_of(""), "");
    assert_eq!(trim_of("\r\na b\n"), "a b");
}

#[test]
fn prefix_and_equality() {
    assert!(str_has_prefix("cert = x", "cert ="));
    assert!(!str_has_prefix("cert", "cert ="));
    assert!(!str_has_prefix("CERT = x", "cert ="));
    assert!(str_eq("abc", "abc"));
    assert!(!str_eq("abc", "abd"));
}

#[test]
fn concat_builds_lines() {
    assert_eq!(concat2("accept = ", "443"), "accept = 443");
    assert_eq!(concat3("connect = ", "host", ":80"), "connect = host:80");
}

#[test]
fn split_lines_basic() {
    let r = split_lines("a\nb");
    assert_eq!(r, lines_of(&["a", "b"]));
    assert_eq!(split_lines("a\nb\n"), lines_of(&["a", "b"]));
    assert_eq!(split_lines(""), lines_of(&[]));
    assert_eq!(split_lines("\n"), lines_of(&[""]));
    assert_eq!(split_lines("a\n\nb"), lines_of(&["a", "", "b"]));
}

#[test]
fn split_lines_strips_carriage_return_only_before_line_feed() {
    assert_eq!(split_lines("a\r\nb\r\n"), lines_of(&["a", "b"]));
    assert_eq!(split_lines("a\r"), lines_of(&["a\r"]));
}

#[test]
fn render_joins_with_single_trailing_terminator() {
    assert_eq!(render_lines(&lines_of(&[])), "");
    assert_eq!(render_lines(&lines_of(&["a"])), "a\n");
    assert_eq!(render_lines(&lines_of(&["a", "b"])), "a\nb\n");
    assert_eq!(render_lines(&lines_of(&["a", ""])), "a\n");
    assert_eq!(render_lines(&lines_of(&["a", "", ""])), "a\n\n");
    assert_eq!(render_lines(&lines_of(&[""])), "\n");
}

#[test]
fn split_then_render_round_trip_on_terminated_text() {
    let text = "global = 1\n\n[svc]\naccept = 2\n";
    assert_eq!(render_lines(&split_lines(text)), text);
}

#[test]
fn join_strings_with_separator() {
    assert_eq!(join_strings(&lines_of(&["a", "b", "c"]), ", "), "a, b, c");
    assert_eq!(join_strings(&lines_of(&[]), ", "), "");
    assert_eq!(join_strings(&lines_of(&["only"]), ", "), "only");
}
