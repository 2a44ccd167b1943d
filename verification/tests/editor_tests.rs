use stunnel_space::editor::{append_section, contains_section, remove_section};
use stunnel_space::text::render_lines;
use stunnel_space::types::{EditError, Provider};

fn doc(lines: &[&str]) -> Vec<String> {
    lines.iter().map(|l| l.to_string()).collect()
}

fn provider(name: &str) -> Provider {
    Provider {
        name: name.to_string(),
        is_client: true,
        accept_port: "8443".to_string(),
        connect_host: "127.0.0.1".to_string(),
        connect_port: "443".to_string(),
    }
}

#[test]
fn remove_missing_section_fails_not_found() {
    let base = doc(&["foreground = yes", "[svc]", "accept = 1"]);
    let before = base.clone();
    let r = remove_section(&base, "other");
    assert_eq!(r.unwrap_err(), EditError::SectionNotFound);
    assert_eq!(base, before);
}

#[test]
fn remove_blank_name_is_invalid_argument() {
    let base = doc(&["[ ]", "accept = 1"]);
    assert_eq!(remove_section(&base, "").unwrap_err(), EditError::InvalidArgument);
    assert_eq!(remove_section(&base, "  \t").unwrap_err(), EditError::InvalidArgument);
}

#[test]
fn remove_missing_section_fails_again() {
    let base = doc(&["a = 1"]);
    assert_eq!(remove_section(&base, "svc").unwrap_err(), EditError::SectionNotFound);
    assert_eq!(remove_section(&base, "svc").unwrap_err(), EditError::SectionNotFound);
}

#[test]
fn append_then_remove_round_trip() {
    let base = doc(&["foreground = yes", "debug = 7"]);
    let appended = append_section(&base, &provider("svcX")).unwrap();
    let removed = remove_section(&appended, "svcX").unwrap();
    let mut expected = base.clone();
    expected.push(String::new());
    assert_eq!(removed, expected);
    assert_eq!(render_lines(&removed), render_lines(&base));
    assert_eq!(render_lines(&removed), "foreground = yes\ndebug = 7\n");
}

#[test]
fn comment_pairing_keeps_unrelated_comment() {
    let base = doc(&[
        "; svcA service",
        "[svcA]",
        "accept = 1",
        "",
        "; svcB service",
        "[svcB]",
        "accept = 2",
    ]);
    let removed = remove_section(&base, "svcA").unwrap();
    assert_eq!(removed, doc(&["; svcB service", "[svcB]", "accept = 2"]));
}

#[test]
fn duplicate_append_fails_and_leaves_document() {
    let base = doc(&["[svcA]", "accept = 1"]);
    let before = base.clone();
    let r = append_section(&base, &provider("svcA"));
    assert_eq!(r.unwrap_err(), EditError::DuplicateSection);
    assert_eq!(base, before);
}

#[test]
fn append_emits_block_with_inherited_directives() {
    let base = doc(&["cert = /etc/ssl/a.pem", "verify = 2", "CAfile = /etc/ssl/ca.pem"]);
    let appended = append_section(&base, &provider("tun")).unwrap();
    let expected = doc(&[
        "cert = /etc/ssl/a.pem",
        "verify = 2",
        "CAfile = /etc/ssl/ca.pem",
        "",
        "; tun service",
        "[tun]",
        "client = yes",
        "accept = 8443",
        "connect = 127.0.0.1:443",
        "cert = /etc/ssl/a.pem",
        "CAfile = /etc/ssl/ca.pem",
        "verify = 2",
    ]);
    assert_eq!(appended, expected);
}

#[test]
fn append_server_section_has_no_client_line() {
    let mut p = provider("srv");
    p.is_client = false;
    let appended = append_section(&doc(&[]), &p).unwrap();
    let expected = doc(&["", "; srv service", "[srv]", "accept = 8443", "connect = 127.0.0.1:443"]);
    assert_eq!(appended, expected);
}

#[test]
fn append_inherits_first_occurrence_only() {
    let base = doc(&["  cert = first  ", "cert = second"]);
    let appended = append_section(&base, &provider("s")).unwrap();
    // The inherited line is the trimmed first match.
    assert_eq!(appended.last().unwrap(), "cert = first");
}

#[test]
fn remove_drops_body_comments_but_keeps_boundary_comment() {
    let base = doc(&[
        "[gone]",
        "accept = 1",
        "; a note inside the body",
        "; unrelated note before next section",
        "[kept]",
        "accept = 2",
    ]);
    let removed = remove_section(&base, "gone").unwrap();
    // Comments deeper inside the skipped body are dropped; the comment
    // directly preceding the next section stays with it.
    assert_eq!(
        removed,
        doc(&["; unrelated note before next section", "[kept]", "accept = 2"])
    );
}

#[test]
fn remove_matches_trimmed_header() {
    let base = doc(&["  [pad]  ", "accept = 1", "[next]"]);
    let removed = remove_section(&base, "pad").unwrap();
    assert_eq!(removed, doc(&["[next]"]));
}

#[test]
fn remove_without_paired_comment_keeps_preceding_line() {
    let base = doc(&["; another comment", "[x]", "accept = 1"]);
    let removed = remove_section(&base, "x").unwrap();
    assert_eq!(removed, doc(&["; another comment"]));
}

#[test]
fn contains_section_sees_trimmed_headers() {
    let base = doc(&["  [a]", "b = 1"]);
    assert!(contains_section(&base, "a"));
    assert!(!contains_section(&base, "b"));
}

#[test]
fn remove_everything_yields_empty_document() {
    let base = doc(&["; only service", "[only]", "accept = 1"]);
    let removed = remove_section(&base, "only").unwrap();
    assert!(removed.is_empty());
    assert_eq!(render_lines(&removed), "");
}
