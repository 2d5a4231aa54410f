use ytmp3::sanitize::{safe_char, sanitize_filename};

#[test]
fn drops_punctuation_and_keeps_spaces() {
    assert_eq!(sanitize_filename("My Song: Live!"), "My Song Live");
}

#[test]
fn keeps_letters_digits_space_hyphen_and_underscore() {
    let title = "AZaz09 -_";
    assert_eq!(sanitize_filename(title), title);
}

#[test]
fn drops_rather_than_replaces() {
    assert_eq!(sanitize_filename("a/b\\c:d*e?f\"g<h>i|j"), "abcdefghij");
    assert_eq!(sanitize_filename("tab\there\nnewline"), "tabherenewline");
    assert_eq!(sanitize_filename("dots.and,commas"), "dotsandcommas");
}

#[test]
fn drops_characters_outside_ascii() {
    assert_eq!(sanitize_filename("Caf\u{e9} \u{4e2d}\u{6587} \u{1f3b5}x"), "Caf  x");
    assert_eq!(sanitize_filename("\u{ff21}\u{0661}"), "");
}

#[test]
fn empty_title_stays_empty() {
    assert_eq!(sanitize_filename(""), "");
    assert_eq!(sanitize_filename("!!!"), "");
}

#[test]
fn sanitizing_twice_changes_nothing_more() {
    for title in [
        "My Song: Live!",
        "",
        "already clean_name-1",
        "\u{e9}\u{e8}/../etc/passwd",
        "  spaced  out  ",
        "~!@#$%^&*()+=[]{};':\",.<>/?`|\\",
    ] {
        let once = sanitize_filename(title);
        let twice = sanitize_filename(&once);
        assert_eq!(twice, once);
    }
}

#[test]
fn result_holds_safe_characters_only() {
    let all: String = (0u32..0x3000).filter_map(char::from_u32).collect();
    let kept = sanitize_filename(&all);
    assert!(kept.chars().all(|c| c.is_ascii_alphanumeric() || c == ' ' || c == '-' || c == '_'));
    assert_eq!(kept.chars().count(), 26 + 26 + 10 + 3);
}

#[test]
fn order_of_kept_characters_is_unchanged() {
    assert_eq!(sanitize_filename("z!y?x.9_8-7 a"), "zyx9_8-7 a");
}

#[test]
fn safe_char_agrees_with_the_allow_list() {
    for code in 0u32..0x800 {
        if let Some(c) = char::from_u32(code) {
            let expected = c.is_ascii_alphanumeric() || c == ' ' || c == '-' || c == '_';
            assert_eq!(safe_char(c), expected);
        }
    }
}
