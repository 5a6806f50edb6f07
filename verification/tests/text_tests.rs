use razi::text::contains;
use razi::text::escape_markdown_text;
use razi::text::int_text;
use razi::text::join;
use razi::text::nat_text;
use razi::text::same_text;
use razi::text::starts_with;

#[test]
fn decimal_of_naturals() {
    assert_eq!(nat_text(0), "0");
    assert_eq!(nat_text(7), "7");
    assert_eq!(nat_text(404), "404");
    assert_eq!(nat_text(u64::MAX), "18446744073709551615");
}

#[test]
fn decimal_of_integers() {
    assert_eq!(int_text(0), "0");
    assert_eq!(int_text(-5), "-5");
    assert_eq!(int_text(1234567), "1234567");
    assert_eq!(int_text(i64::MIN), "-9223372036854775808");
    assert_eq!(int_text(i64::MAX), "9223372036854775807");
}

#[test]
fn escaping_markdown() {
    assert_eq!(escape_markdown_text("plain name"), "plain name");
    assert_eq!(escape_markdown_text("a_b*c~d"), "a\\_b\\*c\\~d");
    assert_eq!(escape_markdown_text("__"), "\\_\\_");
    assert_eq!(escape_markdown_text(""), "");
    assert_eq!(escape_markdown_text("\u{1F9CA}_"), "\u{1F9CA}\\_");
}

#[test]
fn escaping_matches_three_replacements() {
    let name = "x_*~y~";
    let expected = name.replace("_", r"\_").replace("*", r"\*").replace("~", r"\~");
    assert_eq!(escape_markdown_text(name), expected);
}

#[test]
fn escaping_a_concatenation_escapes_each_part() {
    let a = "mi_x";
    let b = "*y";
    let joined = format!("{}{}", a, b);
    assert_eq!(
        escape_markdown_text(&joined),
        format!("{}{}", escape_markdown_text(a), escape_markdown_text(b))
    );
}

#[test]
fn substring_tests() {
    assert!(contains("https://example.org", "http"));
    assert!(contains("a::b", "::"));
    assert!(!contains("vs_server_1.2.tar.gz", "http"));
    assert!(contains("anything", ""));
    assert!(!contains("ht", "http"));
    assert!(starts_with("[R_STAT] 4 players", "[R_STAT]"));
    assert!(!starts_with(" [R_STAT]", "[R_STAT]"));
    assert!(starts_with("x", ""));
}

#[test]
fn joining_and_comparing() {
    assert_eq!(join("ab", "cd"), "abcd");
    assert!(same_text("mc", "mc"));
    assert!(!same_text("mc", "MC"));
}
