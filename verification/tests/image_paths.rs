use docparse::image_paths::{
    choose_image_dests, is_image_extension, replace_image_paths_in_markdown,
};
use docparse::url_signing::{apply_signed_urls, embedded_url_prefix, sign_targets, unique_dests};

#[test]
fn images_point_at_their_uploads() {
    let md = "# T\n\n![a](output/images/x.png)\n\n![b](other/z.png)\n";
    let results = vec![("x.png".to_string(), "https://o.example.com/x.png".to_string())];
    let out = replace_image_paths_in_markdown(md, &results).unwrap();
    assert!(out.contains("https://o.example.com/x.png"));
    assert!(!out.contains("output/images/x.png"));
    assert!(out.contains("other/z.png"));
}

#[test]
fn stems_match_references_without_extension() {
    let md = "![c](imgs/y)\n";
    let results = vec![("y.jpg".to_string(), "https://o.example.com/y.jpg".to_string())];
    let out = replace_image_paths_in_markdown(md, &results).unwrap();
    assert!(out.contains("https://o.example.com/y.jpg"));
}

#[test]
fn later_uploads_replace_earlier_names_but_not_stems() {
    let ev = vec![Some("a/p.png".to_string()), None, Some("b/p".to_string())];
    let names = vec![Some("p.png".to_string()), None, Some("p".to_string())];
    let entries = vec![
        ("p.png".to_string(), Some("p".to_string()), "U1".to_string()),
        ("p.png".to_string(), Some("p".to_string()), "U2".to_string()),
    ];
    let chosen = choose_image_dests(&ev, &names, &entries);
    assert_eq!(chosen, vec![Some("U2".to_string()), None, Some("U1".to_string())]);
}

#[test]
fn image_extensions_ignore_case() {
    assert!(is_image_extension("PNG"));
    assert!(is_image_extension("jpeg"));
    assert!(is_image_extension("Tif"));
    assert!(!is_image_extension("txt"));
    assert!(!is_image_extension(""));
}

#[test]
fn embedded_urls_prefix_and_targets() {
    assert_eq!(embedded_url_prefix("https://a.example.com//"), "https://a.example.com/api/f/");
    assert!(sign_targets(&[0xff, 0xfe], "https://a.example.com").is_none());
    assert!(sign_targets(b"no links", "https://a.example.com").is_none());
    let content = b"![x](https://a.example.com/api/f/1.png) [y](https://a.example.com/api/f/1.png) ![z](https://a.example.com/api/f/2.png)";
    let (text, spans, unique) = sign_targets(content, "https://a.example.com/").unwrap();
    assert_eq!(text.as_bytes(), content);
    assert_eq!(spans.len(), 3);
    assert_eq!(unique.len(), 2);
    assert_eq!(unique_dests(&spans), unique);

    let results = vec![
        Some(("https://a.example.com/api/f/1.png".to_string(), "S1".to_string())),
        None,
    ];
    let out = apply_signed_urls(content.to_vec(), &text, &spans, &results);
    assert_eq!(
        String::from_utf8(out).unwrap(),
        "![x](S1) [y](S1) ![z](https://a.example.com/api/f/2.png)"
    );
    let unchanged = apply_signed_urls(content.to_vec(), &text, &spans, &vec![None, None]);
    assert_eq!(unchanged, content.to_vec());
}

#[test]
fn single_image_gets_its_upload_url() {
    let results = vec![("x.png".to_string(), "https://oss/x.png".to_string())];
    let out = replace_image_paths_in_markdown("![a](images/x.png)", &results).unwrap();
    assert_eq!(out.trim_end(), "![a](https://oss/x.png)");
}
