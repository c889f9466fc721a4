use docparse::sections::{DocumentStructure, MarkdownProcessor, TocItem};

fn toc(id: &str, title: &str) -> TocItem {
    TocItem { id: id.to_string(), title: title.to_string(), level: 1, start_pos: 0, end_pos: 0 }
}

fn doc(sections: &[(&str, &str)], toc_items: Vec<TocItem>) -> DocumentStructure {
    DocumentStructure {
        title: "T".to_string(),
        toc: toc_items,
        sections: sections.iter().map(|(a, b)| (a.to_string(), b.to_string())).collect(),
    }
}

#[test]
fn search_finds_the_first_match_ignoring_case() {
    let d = doc(
        &[("s1", "Hello World, world"), ("s2", "nothing here"), ("s3", "WORLD peace")],
        vec![toc("s1", "Intro"), toc("s2", "Other")],
    );
    let p = MarkdownProcessor;
    let hits = p.search_content(&d, "world");
    assert_eq!(hits.len(), 1);
    assert_eq!(hits[0].section_id, "s1");
    assert_eq!(hits[0].title, "Intro");
    assert_eq!(hits[0].position, 6);
    assert_eq!(hits[0].content, "Hello World, world");
    assert_eq!(hits[0].context, "Hello World, world...");
}

#[test]
fn search_counts_positions_in_characters() {
    let d = doc(&[("s1", "日本語のテキスト")], vec![toc("s1", "JP")]);
    let hits = MarkdownProcessor.search_content(&d, "テキ");
    assert_eq!(hits.len(), 1);
    assert_eq!(hits[0].position, 4);
}

#[test]
fn search_refuses_a_match_off_the_character_grid() {
    // Lowercasing `İ` lengthens it, so the match in the lowered text lies
    // past the end of the original.
    let d = doc(&[("s1", "İİx")], vec![toc("s1", "Odd")]);
    assert!(MarkdownProcessor.search_sections(&d, "x").is_none());
    let plain = doc(&[("s1", "abx")], vec![toc("s1", "Plain")]);
    let hits = MarkdownProcessor.search_sections(&plain, "X").unwrap();
    assert_eq!(hits[0].position, 2);
}
