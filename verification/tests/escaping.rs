use hypr_magic::escape::{escape_xml, is_blank, is_space};
use hypr_magic::request::wrap_raw;

#[test]
fn escape_example_from_design() {
    // input `a & b < "c"` must embed as `a &amp; b &lt; &quot;c&quot;`
    assert_eq!(escape_xml("a & b < \"c\""), "a &amp; b &lt; &quot;c&quot;");
}

#[test]
fn escape_all_five_characters() {
    assert_eq!(escape_xml("&<>\"'"), "&amp;&lt;&gt;&quot;&apos;");
}

#[test]
fn escape_leaves_plain_text_alone() {
    assert_eq!(escape_xml("hello, world"), "hello, world");
    assert_eq!(escape_xml(""), "");
}

#[test]
fn escape_handles_multibyte_text() {
    assert_eq!(escape_xml("héllo <wörld>"), "héllo &lt;wörld&gt;");
}

#[test]
fn escape_double_escapes_existing_entities() {
    // Known, intentional limitation: text that already holds an entity is
    // escaped again, since the ampersand replacement runs first.
    assert_eq!(escape_xml("&amp;"), "&amp;amp;");
}

#[test]
fn wrapping_puts_escaped_text_between_tags() {
    assert_eq!(wrap_raw("a & b < \"c\""), "<raw>a &amp; b &lt; &quot;c&quot;</raw>");
    assert_eq!(wrap_raw(""), "<raw></raw>");
}

#[test]
fn blank_detection_matches_trim_semantics() {
    assert!(is_blank(""));
    assert!(is_blank(" \t\r\n"));
    assert!(is_blank("\u{a0}\u{2003}\u{3000}"));
    assert!(!is_blank(" a "));
    assert!(!is_blank("x"));
}

#[test]
fn space_classification_agrees_with_std() {
    for c in ['\t', '\n', ' ', '\u{85}', '\u{2028}', 'a', '&', '\u{200b}'] {
        assert_eq!(is_space(c), c.is_whitespace());
    }
}
