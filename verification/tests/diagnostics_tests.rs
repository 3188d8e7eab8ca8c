use raur::diagnostics::{
    diagnose, extract_key, extract_key_from_line, find_key_line, find_remediation_hint,
    line_mentions_unknown_key, suggestion_for, Diagnosis,
};
use raur::message::{Message, Stream};

const MARKER: &str = "==> ERROR: One or more PGP signatures could not be verified!";

fn key(s: &str) -> Option<String> {
    Some(s.to_string())
}

#[test]
fn plain_hex_word_is_the_key() {
    assert_eq!(extract_key_from_line("unknown key: ABCDEF0123456789AB"), key("ABCDEF0123456789AB"));
}

#[test]
fn trailing_parenthesis_is_trimmed() {
    assert_eq!(
        extract_key_from_line("FAILED (unknown public key using RSA key ABCDEF0123456789AB)"),
        key("ABCDEF0123456789AB")
    );
}

#[test]
fn key_line_without_hex_word_gives_the_placeholder() {
    let text = format!("{}\n    foo.tar.gz ... FAILED (unknown public key)\n", MARKER);
    let d = diagnose(&text);
    assert_eq!(d, Diagnosis::UnverifiedSignature { key: None });
    let lines = d.advice();
    assert_eq!(lines.len(), 2);
    assert_eq!(
        lines[1].text,
        "Try running:\n    A. `gpg --recv-keys <KEY>`\n    B. `raur install --skip-pgp-check`"
    );
}

#[test]
fn text_without_the_marker_gives_no_advice() {
    let text = "==> ERROR: A failure occurred in build().\nunknown key ABCDEF0123456789AB\n";
    let d = diagnose(text);
    assert_eq!(d, Diagnosis::Unexplained);
    assert_eq!(d.advice(), Vec::<Message>::new());
}

#[test]
fn marked_text_with_key_gives_specific_advice() {
    let text = format!(
        "==> Verifying source file signatures with gpg...\n    foo.tar.gz ... FAILED (unknown public key 0123456789ABCDEF)\n{}\n",
        MARKER
    );
    let d = diagnose(&text);
    assert_eq!(d, Diagnosis::UnverifiedSignature { key: key("0123456789ABCDEF") });
    assert_eq!(
        d.advice(),
        vec![
            Message {
                stream: Stream::Stderr,
                text: "PGP error! You might need to import the missing GPG key manually or skip PGP check"
                    .to_string(),
            },
            Message {
                stream: Stream::Stderr,
                text: "Try running:\n    A. `gpg --recv-keys 0123456789ABCDEF`\n    B. `raur install --skip-pgp-check`"
                    .to_string(),
            },
        ]
    );
}

#[test]
fn marker_is_matched_letter_for_letter() {
    let text = "one or more pgp signatures could not be verified\nunknown key 0123456789ABCDEF\n";
    assert_eq!(diagnose(text), Diagnosis::Unexplained);
    let text = "One or more PGP signatures  could not be verified";
    assert_eq!(diagnose(text), Diagnosis::Unexplained);
}

#[test]
fn sixteen_digits_are_the_least() {
    assert_eq!(extract_key("0123456789abcde"), None);
    assert_eq!(extract_key("0123456789abcdef"), key("0123456789abcdef"));
    assert_eq!(extract_key("0123456789abcdefABCDEF"), key("0123456789abcdefABCDEF"));
}

#[test]
fn parenthesis_needs_sixteen_digits_before_it() {
    assert_eq!(extract_key("0123456789abcde)"), None);
    assert_eq!(extract_key("0123456789abcdef)"), key("0123456789abcdef"));
    assert_eq!(extract_key("0123456789abcdef0)"), key("0123456789abcdef0"));
}

#[test]
fn only_one_parenthesis_is_trimmed() {
    assert_eq!(extract_key("0123456789abcdef))"), None);
    assert_eq!(extract_key(")))))))))))))))))"), None);
}

#[test]
fn other_characters_spoil_a_word() {
    assert_eq!(extract_key(""), None);
    assert_eq!(extract_key("0123456789abcdeg"), None);
    assert_eq!(extract_key("0x0123456789abcdef"), None);
    assert_eq!(extract_key("(0123456789abcdef)"), None);
    assert_eq!(extract_key("0123456789abcdef,"), None);
    assert_eq!(extract_key("0123456789abcdé"), None);
    assert_eq!(extract_key("０１２３４５６７８９ａｂｃｄｅｆ"), None);
}

#[test]
fn first_qualifying_word_wins() {
    assert_eq!(
        extract_key_from_line("key 1111111111111111 unknown 2222222222222222) 3333333333333333"),
        key("1111111111111111")
    );
    assert_eq!(
        extract_key_from_line("unknown key short 2222222222222222) 3333333333333333"),
        key("2222222222222222")
    );
    assert_eq!(extract_key_from_line("unknown key"), None);
    assert_eq!(extract_key_from_line(""), None);
}

#[test]
fn key_line_holds_both_words() {
    assert!(line_mentions_unknown_key("unknown public key"));
    assert!(line_mentions_unknown_key("key unknown"));
    assert!(line_mentions_unknown_key("monkeys are unknowns"));
    assert!(!line_mentions_unknown_key("unknown"));
    assert!(!line_mentions_unknown_key("key"));
    assert!(!line_mentions_unknown_key("Unknown Key"));
    assert!(!line_mentions_unknown_key(""));
}

#[test]
fn first_key_line_is_found() {
    assert_eq!(find_key_line(""), None);
    assert_eq!(find_key_line("unknown\nkey\n"), None);
    assert_eq!(find_key_line("a\nunknown key 1\nunknown key 2\n"), key("unknown key 1"));
}

#[test]
fn only_the_first_key_line_is_searched() {
    let text = "unknown public key\nunknown key 0123456789ABCDEF\n";
    assert_eq!(find_remediation_hint(text), None);
    let text = "nothing here\nunknown key 0123456789ABCDEF\nunknown key FEDCBA9876543210\n";
    assert_eq!(find_remediation_hint(text), key("0123456789ABCDEF"));
}

#[test]
fn key_and_marker_may_share_a_line() {
    let text = "One or more PGP signatures could not be verified: unknown key 0123456789ABCDEF";
    assert_eq!(diagnose(text), Diagnosis::UnverifiedSignature { key: key("0123456789ABCDEF") });
}

#[test]
fn suggestion_names_the_key() {
    assert_eq!(
        suggestion_for("ABCDEF0123456789AB"),
        "Try running:\n    A. `gpg --recv-keys ABCDEF0123456789AB`\n    B. `raur install --skip-pgp-check`"
    );
}
