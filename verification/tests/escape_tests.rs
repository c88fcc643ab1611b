use markup::Escape;
use markup::escape;

#[test]
fn test() {
    assert_eq!(escape(""), "");
    assert_eq!(escape("<"), "&lt;");
    assert_eq!(escape("a<"), "a&lt;");
    assert_eq!(escape("<b"), "&lt;b");
    assert_eq!(escape("a<b"), "a&lt;b");
    assert_eq!(escape("a<>b"), "a&lt;&gt;b");
    assert_eq!(escape("<>"), "&lt;&gt;");
    assert_eq!(escape("≤"), "≤");
    assert_eq!(escape("a≤"), "a≤");
    assert_eq!(escape("≤b"), "≤b");
    assert_eq!(escape("a≤b"), "a≤b");
    assert_eq!(escape("a≤≥b"), "a≤≥b");
    assert_eq!(escape("≤≥"), "≤≥");
    assert_eq!(
        escape(r#"foo &<>" bar&bar<bar>bar"bar baz&&<<baz>>""baz"#),
        r#"foo &amp;&lt;&gt;&quot; bar&amp;bar&lt;bar&gt;bar&quot;bar baz&amp;&amp;&lt;&lt;baz&gt;&gt;&quot;&quot;baz"#
    );
}

#[test]
fn test_arguments() {
    let mut e = Escape::new();
    e.write_str(&format!("{:?}", ""));
    assert_eq!(e.into_string(), "&quot;&quot;");
    let mut e = Escape::new();
    e.write_str(&format!("{:?}", "<"));
    assert_eq!(e.into_string(), "&quot;&lt;&quot;");
    let mut e = Escape::new();
    e.write_str(&format!("{:?}", "a<"));
    assert_eq!(e.into_string(), "&quot;a&lt;&quot;");
    let mut e = Escape::new();
    e.write_str(&format!("{:?}", "<b"));
    assert_eq!(e.into_string(), "&quot;&lt;b&quot;");
    let mut e = Escape::new();
    e.write_str(&format!("{:?}", "a<b"));
    assert_eq!(e.into_string(), "&quot;a&lt;b&quot;");
    let mut e = Escape::new();
    e.write_str(&format!("{:?}", "a<>b"));
    assert_eq!(e.into_string(), "&quot;a&lt;&gt;b&quot;");
    let mut e = Escape::new();
    e.write_str(&format!("{:?}", "<>"));
    assert_eq!(e.into_string(), "&quot;&lt;&gt;&quot;");
    let mut e = Escape::new();
    e.write_str(&format!("{:?}", "≤"));
    assert_eq!(e.into_string(), "&quot;≤&quot;");
    let mut e = Escape::new();
    e.write_str(&format!("{:?}", "a≤"));
    assert_eq!(e.into_string(), "&quot;a≤&quot;");
    let mut e = Escape::new();
    e.write_str(&format!("{:?}", "≤b"));
    assert_eq!(e.into_string(), "&quot;≤b&quot;");
    let mut e = Escape::new();
    e.write_str(&format!("{:?}", "a≤b"));
    assert_eq!(e.into_string(), "&quot;a≤b&quot;");
    let mut e = Escape::new();
    e.write_str(&format!("{:?}", "a≤≥b"));
    assert_eq!(e.into_string(), "&quot;a≤≥b&quot;");
    let mut e = Escape::new();
    e.write_str(&format!("{:?}", "≤≥"));
    assert_eq!(e.into_string(), "&quot;≤≥&quot;");
    let mut e = Escape::new();
    e.write_str(&format!("{:?}", r#"foo &<>" bar&bar<bar>bar"bar baz&&<<baz>>""baz"#));
    assert_eq!(
        e.into_string(),
        r#"&quot;foo &amp;&lt;&gt;\&quot; bar&amp;bar&lt;bar&gt;bar\&quot;bar baz&amp;&amp;&lt;&lt;baz&gt;&gt;\&quot;\&quot;baz&quot;"#
    );
    let mut e = Escape::new();
    e.write_str(&format!("{:?}", '<'));
    assert_eq!(e.into_string(), "'&lt;'");
}

#[test]
fn escape_safe_input_is_identity() {
    assert_eq!(escape("plain text, no specials"), "plain text, no specials");
    assert_eq!(escape("フレームワーク"), "フレームワーク");
    assert_eq!(escape("abc123 _-~"), "abc123 _-~");
}

#[test]
fn escape_specials_exactly() {
    assert_eq!(escape("a<b"), "a&lt;b");
    assert_eq!(escape("<>"), "&lt;&gt;");
    assert_eq!(escape("\"x\""), "&quot;x&quot;");
    assert_eq!(escape("&"), "&amp;");
    assert_eq!(escape("≤"), "≤");
}

#[test]
fn escape_sink_accumulates() {
    let mut e = Escape::new();
    e.write_str("a<");
    e.write_str(">b");
    assert_eq!(e.into_string(), "a&lt;&gt;b");
}
