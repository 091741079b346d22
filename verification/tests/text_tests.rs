use deploy_badge::text::{escape_text, str_eq, u64_to_decimal, usize_to_decimal};

#[test]
fn decimal_rendering_is_exact() {
    assert_eq!(u64_to_decimal(0), "0");
    assert_eq!(u64_to_decimal(7), "7");
    assert_eq!(u64_to_decimal(40), "40");
    assert_eq!(u64_to_decimal(114), "114");
    assert_eq!(u64_to_decimal(65535), "65535");
    assert_eq!(u64_to_decimal(u64::MAX), "18446744073709551615");
    assert_eq!(usize_to_decimal(90), "90");
}

#[test]
fn escaping_replaces_the_reserved_characters() {
    assert_eq!(escape_text(""), "");
    assert_eq!(escape_text("finished"), "finished");
    assert_eq!(escape_text("<script>"), "&lt;script&gt;");
    assert_eq!(escape_text("a&b"), "a&amp;b");
    assert_eq!(escape_text("\"quoted\""), "&quot;quoted&quot;");
    assert_eq!(escape_text("it's"), "it&#39;s");
    assert_eq!(escape_text("&&"), "&amp;&amp;");
}

#[test]
fn string_comparison_is_by_content() {
    assert!(str_eq("finished", "finished"));
    assert!(!str_eq("finished", "finishe"));
    assert!(!str_eq("finished", "Finished"));
    assert!(!str_eq("", "x"));
    assert!(str_eq("", ""));
}
