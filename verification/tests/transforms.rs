use eunicode::links::{
    defang_email, defang_spans, defang_url, replace_all, DefangError, LinkKind, Span,
};
use eunicode::unicode_string::string_states::{CleanedText, RawInput};
use eunicode::unicode_string::UnicodeString;

fn raw(text: &str) -> UnicodeString<RawInput> {
    UnicodeString::new(text.to_string())
}

fn cleaned(text: &str) -> UnicodeString<CleanedText> {
    raw(text).clean()
}

fn chars(text: &str) -> Vec<char> {
    text.chars().collect()
}

fn replace(text: &str, from: &str, to: &str) -> String {
    replace_all(&chars(text), &chars(from), &chars(to)).into_iter().collect()
}

#[test]
fn new_keeps_the_text() {
    assert_eq!(raw("h\u{e9}llo\u{200B}").to_string(), "h\u{e9}llo\u{200B}");
    assert_eq!(raw("").to_string(), "");
}

#[test]
fn clean_transliterates() {
    assert_eq!(cleaned("h\u{e9}llo w\u{f6}rld").into_string(), "hello world");
    assert_eq!(cleaned("\u{4e2d}\u{56fd}").into_string(), "Zhong Guo");
    assert_eq!(cleaned("\u{1f600}").into_string(), "grinning");
    assert_eq!(cleaned("admin\u{200B}admin").into_string(), "admin admin");
}

#[test]
fn clean_leaves_plain_ascii_alone() {
    let text: String = ('\0'..'\u{7f}').collect();
    assert_eq!(cleaned(&text).into_string(), text);
    assert_eq!(cleaned("").into_string(), "");
}

#[test]
fn clean_does_not_keep_delete() {
    assert_eq!(cleaned("a\u{7f}b").into_string(), "ab");
}

#[test]
fn clean_twice_is_clean_once_on_cleaned_text() {
    for text in ["hello world", "h\u{e9}llo", "\u{4e2d}\u{56fd}", "a\u{7f}b", "caf\u{e9} \u{2603}", ""] {
        let once = cleaned(text).into_string();
        let twice = cleaned(&once).into_string();
        assert_eq!(twice, once);
    }
}

#[test]
fn strip_html_removes_tags() {
    assert_eq!(cleaned("<b>bold</b> and <i>it</i>").strip_html().into_string(), "bold and it");
    assert_eq!(cleaned("<script>alert(1)</script>x").strip_html().into_string(), "x");
    assert_eq!(cleaned("plain").strip_html().into_string(), "plain");
}

#[test]
fn strip_html_writes_text_as_html() {
    assert_eq!(cleaned("a & b < c").strip_html().into_string(), "a &amp; b &lt; c");
}

#[test]
fn strip_then_defang_link_in_attribute() {
    let stripped = cleaned("<a href='http://evil.com'>hi</a>").strip_html();
    assert_eq!(stripped.defang_links().unwrap().into_string(), "hi");
}

#[test]
fn strip_then_defang_link_in_text() {
    let stripped = cleaned("<a href='http://evil.com'>see http://evil.com</a>").strip_html();
    assert_eq!(stripped.defang_links().unwrap().into_string(), "see hXXp://evil[.]com");
}

#[test]
fn defang_links_rewrites_web_addresses() {
    assert_eq!(
        cleaned("visit http://evil.com now").defang_links().unwrap().into_string(),
        "visit hXXp://evil[.]com now"
    );
    assert_eq!(
        cleaned("ftp://files.example.org/a.b").defang_links().unwrap().into_string(),
        "fXp://files[.]example[.]org/a[.]b"
    );
    assert_eq!(
        cleaned("https://www.example.com/x").defang_links().unwrap().into_string(),
        "hXXps://www[.]example[.]com/x"
    );
}

#[test]
fn defang_links_rewrites_mail_addresses() {
    assert_eq!(
        cleaned("mail bob@example.com.").defang_links().unwrap().into_string(),
        "mail bob[@]example[.]com."
    );
}

#[test]
fn defang_links_leaves_the_rest_alone() {
    assert_eq!(cleaned("no links here.").defang_links().unwrap().into_string(), "no links here.");
    assert_eq!(cleaned("").defang_links().unwrap().into_string(), "");
    assert_eq!(
        cleaned("a. http://evil.com b.").defang_links().unwrap().into_string(),
        "a. hXXp://evil[.]com b."
    );
}

#[test]
fn defang_url_replaces_in_order() {
    let out: String = defang_url(&chars("http://ftp.example.com")).into_iter().collect();
    assert_eq!(out, "hXXp://fXp[.]example[.]com");
    let out: String = defang_url(&chars("ftphttp.")).into_iter().collect();
    assert_eq!(out, "fXphXXp[.]");
    let out: String = defang_url(&chars("htftptp")).into_iter().collect();
    assert_eq!(out, "htfXptp");
}

#[test]
fn defang_email_replaces_at_and_dot() {
    let out: String = defang_email(&chars("a.b@c.d")).into_iter().collect();
    assert_eq!(out, "a[.]b[@]c[.]d");
    let out: String = defang_email(&chars("http")).into_iter().collect();
    assert_eq!(out, "http");
}

#[test]
fn defang_spans_goes_by_kind() {
    let spans = vec![
        Span { text: "see http.x ".to_string(), kind: None },
        Span { text: "http.x".to_string(), kind: Some(LinkKind::Url) },
        Span { text: " or ".to_string(), kind: None },
        Span { text: "a@b.c".to_string(), kind: Some(LinkKind::Email) },
    ];
    assert_eq!(defang_spans(&spans), Ok("see http.x hXXp[.]x or a[@]b[.]c".to_string()));
    assert_eq!(defang_spans(&Vec::new()), Ok(String::new()));
}

#[test]
fn defang_spans_refuses_unsupported_links() {
    let spans = vec![
        Span { text: "a".to_string(), kind: None },
        Span { text: "tel:1".to_string(), kind: Some(LinkKind::Unsupported) },
        Span { text: "http://x.org".to_string(), kind: Some(LinkKind::Url) },
    ];
    assert_eq!(defang_spans(&spans), Err(DefangError::UnsupportedLinkKind));
}

#[test]
fn replace_all_finds_occurrences_from_the_left() {
    assert_eq!(replace("aaa", "aa", "b"), "ba");
    assert_eq!(replace("aaaa", "aa", "b"), "bb");
    assert_eq!(replace("abcabc", "bc", ""), "aa");
    assert_eq!(replace("abc", "abcd", "x"), "abc");
    assert_eq!(replace("abc", "abc", "x"), "x");
    assert_eq!(replace("", "a", "x"), "");
    assert_eq!(replace("a.b.", ".", "[.]"), "a[.]b[.]");
    assert_eq!(replace("xhttphttp", "http", "hXXp"), "xhXXphXXp");
}

#[test]
fn replace_all_does_not_search_what_it_wrote() {
    assert_eq!(replace("ab", "a", "aa"), "aab");
    assert_eq!(replace("..", ".", "[.]"), "[.][.]");
}

#[test]
fn replace_all_with_empty_pattern_changes_nothing() {
    assert_eq!(replace("abc", "", "x"), "abc");
}

#[test]
fn replace_all_agrees_with_the_standard_library() {
    let texts = ["", "a", "ab", "aab", "abab", "ababab", "bbaabb", "http://ftp.http.ftp", "a.b.c"];
    let patterns = ["a", "ab", "ba", "aa", "abab", "http", "ftp", "."];
    for text in texts {
        for pattern in patterns {
            assert_eq!(replace(text, pattern, "<>"), text.replace(pattern, "<>"));
        }
    }
}

#[test]
fn censor_profanity_replaces_profane_terms() {
    assert_eq!(cleaned("shit").censor_profanity().into_string(), "s***");
    assert_eq!(cleaned("hello").censor_profanity().into_string(), "hello");
}

#[test]
fn sluggify_makes_a_slug() {
    assert_eq!(cleaned("Hello, World!").sluggify().into_string(), "hello-world");
    assert_eq!(cleaned("  a  b  ").sluggify().into_string(), "a-b");
    assert_eq!(cleaned("a_b.c").sluggify().into_string(), "a-b-c");
    assert_eq!(cleaned("").sluggify().into_string(), "");
    assert_eq!(cleaned("---").sluggify().into_string(), "");
}

#[test]
fn sluggify_of_raw_text_is_a_plain_string() {
    assert_eq!(raw("Cr\u{e8}me br\u{fb}l\u{e9}e!").sluggify(), "creme-brulee");
    assert_eq!(raw("\u{4e2d}\u{56fd}").sluggify(), "zhong-guo");
}

#[test]
fn slug_holds_slug_characters_only() {
    for text in ["Hello, World!", "\u{1f600} \u{4e2d}", "A\u{7f}\u{1b}[31m", "%&/()", "x\u{200B}y"] {
        let slug = cleaned(text).sluggify().into_string();
        assert!(slug.chars().all(|c| c.is_ascii_lowercase() || c.is_ascii_digit() || c == '-'));
        let slug = raw(text).sluggify();
        assert!(slug.chars().all(|c| c.is_ascii_lowercase() || c.is_ascii_digit() || c == '-'));
    }
}

#[test]
fn transformations_compose_in_any_order() {
    let text = "<b>Mail bob@example.com</b>";
    let one = cleaned(text).strip_html().defang_links().unwrap().sluggify().into_string();
    assert_eq!(one, "mail-bob-example-com");
    let other = cleaned(text).defang_links().unwrap().strip_html().into_string();
    assert_eq!(other, "Mail bob[@]example[.]com");
}
