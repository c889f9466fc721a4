use docparse::md_links::{extract_inline_dest_spans, rebuild_with_replacements};

const SIGN_TEST_PREFIX: &str = "https://agent.example.com/api/f/";

fn pairs(items: &[(&str, &str)]) -> Vec<(String, String)> {
    items.iter().map(|(a, b)| (a.to_string(), b.to_string())).collect()
}

#[test]
fn extract_skips_urls_inside_code_blocks() {
    let content = "# t\n\n![ok](https://agent.example.com/api/f/s3/a.png)\n\n```rust\n// demo: ![demo](https://agent.example.com/api/f/s3/b.png)\n```\n\ninline `![x](https://agent.example.com/api/f/s3/c.png)` code\n";
    let spans = extract_inline_dest_spans(content, SIGN_TEST_PREFIX);
    let urls: Vec<&str> = spans.iter().map(|(d, _, _)| d.as_str()).collect();
    assert_eq!(urls, vec!["https://agent.example.com/api/f/s3/a.png"]);
}

#[test]
fn extract_handles_title_multiple_and_foreign_prefix() {
    let content = "![a](https://agent.example.com/api/f/s3/x.png \"fig.1\")\n[link](https://agent.example.com/api/f/s3/x.png)\n![ext](https://other.example.com/api/f/s3/y.png)\n";
    let spans = extract_inline_dest_spans(content, SIGN_TEST_PREFIX);
    assert_eq!(spans.len(), 2);
    assert!(spans
        .iter()
        .all(|(d, _, _)| d == "https://agent.example.com/api/f/s3/x.png"));
    for (dest, start, end) in &spans {
        assert_eq!(&content[*start..*end], dest);
    }
}

#[test]
fn extract_skips_reference_links() {
    let content = "[ref]: https://agent.example.com/api/f/s3/r.png\n\n![alt][ref]\n";
    let spans = extract_inline_dest_spans(content, SIGN_TEST_PREFIX);
    assert!(spans.is_empty());
}

#[test]
fn extract_nested_image_in_link_ordered_and_no_panic() {
    let content = "[![thumb](https://agent.example.com/api/f/s3/a.png)](https://agent.example.com/api/f/s3/b.png)";
    let spans = extract_inline_dest_spans(content, SIGN_TEST_PREFIX);
    assert_eq!(spans.len(), 2, "both levels are collected");
    assert!(spans[0].1 < spans[1].1 && spans[0].2 <= spans[1].1);

    let signed = pairs(&[
        ("https://agent.example.com/api/f/s3/a.png", "SA"),
        ("https://agent.example.com/api/f/s3/b.png", "SB"),
    ]);
    let out = rebuild_with_replacements(content, &spans, &signed);
    assert_eq!(out, "[![thumb](SA)](SB)");
}

#[test]
fn extract_alt_echoing_url_replaces_href_not_alt() {
    let content =
        "![https://agent.example.com/api/f/s3/x.png](https://agent.example.com/api/f/s3/x.png)";
    let spans = extract_inline_dest_spans(content, SIGN_TEST_PREFIX);
    assert_eq!(spans.len(), 1);
    let (dest, start, end) = &spans[0];
    assert_eq!(dest, "https://agent.example.com/api/f/s3/x.png");
    assert_eq!(&content[*start..*end], dest);
    let signed = vec![(dest.clone(), "SIGNED".to_string())];
    let out = rebuild_with_replacements(content, &spans, &signed);
    assert_eq!(out, "![https://agent.example.com/api/f/s3/x.png](SIGNED)");

    let content2 = "[P/y.png](P/y.png)";
    let spans2 = extract_inline_dest_spans(content2, "P/");
    assert_eq!(spans2.len(), 1);
    assert_eq!(&content2[spans2[0].1..spans2[0].2], "P/y.png");
    assert_eq!(spans2[0].1, content2.find("](P/").unwrap() + 2);
}

#[test]
fn extract_title_containing_bracket_paren_locates_real_href() {
    let content = "![img](P/a.png \"ti](P/a.png\")";
    let spans = extract_inline_dest_spans(content, "P/");
    assert_eq!(spans.len(), 1);
    let (dest, start, end) = &spans[0];
    assert_eq!(dest, "P/a.png");
    assert_eq!(&content[*start..*end], "P/a.png");
    let signed = pairs(&[("P/a.png", "S")]);
    let out = rebuild_with_replacements(content, &spans, &signed);
    assert_eq!(out, "![img](S \"ti](P/a.png\")");

    let content2 = "![img](P/b.png \"ti](tle\")";
    let spans2 = extract_inline_dest_spans(content2, "P/");
    assert_eq!(spans2.len(), 1);
    assert_eq!(&content2[spans2[0].1..spans2[0].2], "P/b.png");
}

#[test]
fn extract_same_url_nested_positions_both_hrefs_correctly() {
    let content = "[![x](P/z)](P/z)";
    let spans = extract_inline_dest_spans(content, "P/");
    assert_eq!(spans.len(), 2, "{spans:?}");
    for (dest, start, end) in &spans {
        assert_eq!(dest, "P/z");
        assert_eq!(&content[*start..*end], "P/z");
    }
    assert!(spans[0].2 <= spans[1].1);
    let signed = pairs(&[("P/z", "S")]);
    let out = rebuild_with_replacements(content, &spans, &signed);
    assert_eq!(out, "[![x](S)](S)");
}

#[test]
fn rebuild_replaces_only_signed_and_keeps_rest() {
    let content = "pre ![a](P/U1.png) mid [b](P/U2.png) post ![c](P/U3.png) end";
    let spans = extract_inline_dest_spans(content, "P/");
    assert_eq!(spans.len(), 3);
    let signed = pairs(&[("P/U1.png", "S1"), ("P/U3.png", "S3")]);
    let out = rebuild_with_replacements(content, &spans, &signed);
    assert_eq!(out, "pre ![a](S1) mid [b](P/U2.png) post ![c](S3) end");
}

#[test]
fn rebuild_without_replacements_gives_the_text_back() {
    let content = "é ![a](P/ü.png) ok";
    let spans = extract_inline_dest_spans(content, "P/");
    assert_eq!(spans.len(), 1);
    let out = rebuild_with_replacements(content, &spans, &Vec::new());
    assert_eq!(out, content);
}

#[test]
fn extract_keeps_angle_bracket_and_multibyte_destinations() {
    let content = "![图](P/图片.png)";
    let spans = extract_inline_dest_spans(content, "P/");
    assert_eq!(spans.len(), 1);
    assert_eq!(&content[spans[0].1..spans[0].2], "P/图片.png");
}
