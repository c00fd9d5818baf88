use manatan_documentation::{
    all_pages, find_page, nav_sections, normalize_slug, not_found_page, parse_doc,
    trim_wrapping_quotes,
};

#[test]
fn finds_docs_home_page_with_empty_slug() {
    let page = find_page("").expect("docs home page should exist");
    assert_eq!(page.slug, "");
}

#[test]
fn parses_markdown_frontmatter() {
    let parsed = parse_doc("---\ntitle: Hello\ndescription: Hi there\n---\n\n# Body\n");

    assert_eq!(parsed.title, "Hello");
    assert_eq!(parsed.description, "Hi there");
    assert_eq!(parsed.body, "# Body\n");
}

#[test]
fn normalize_handles_empty_and_all_slashes() {
    assert_eq!(normalize_slug(""), "");
    assert_eq!(normalize_slug("///"), "");
    assert_eq!(normalize_slug("  "), "");
}

#[test]
fn normalize_strips_edges_and_keeps_interior_slashes() {
    assert_eq!(normalize_slug(" /guides/getting-started/ "), "guides/getting-started");
    assert_eq!(normalize_slug("faq/general"), "faq/general");
    assert_eq!(normalize_slug("/docs-page"), "docs-page");
}

#[test]
fn normalize_is_idempotent_on_ordinary_routes() {
    let inputs = ["", "///", " /faq/ ", "guides", "a/b/c", "  /guides/novels"];
    for input in inputs {
        let once = normalize_slug(input);
        assert_eq!(normalize_slug(once), once);
    }
}

#[test]
fn normalize_removes_unicode_whitespace() {
    assert_eq!(normalize_slug("\u{a0}/guides/\u{b}"), "guides");
    assert_eq!(normalize_slug("\u{3000}\u{2009}"), "");
    assert_eq!(normalize_slug("\u{85}faq\u{2028}"), "faq");
}

#[test]
fn fallback_body_is_unicode_trimmed() {
    let parsed = parse_doc("\u{b}x");
    assert_eq!(parsed.body, "x");
    let unterminated = parse_doc("---\ntitle: Lost\u{a0}");
    assert_eq!(unterminated.body, "---\ntitle: Lost");
}

#[test]
fn frontmatter_values_are_unicode_trimmed() {
    let parsed = parse_doc("---\ntitle:\u{a0}Spaced\u{2003}\n---\nBody");
    assert_eq!(parsed.title, "Spaced");
}

#[test]
fn frontmatter_round_trip() {
    let parsed = parse_doc("---\ntitle: Hello\ndescription: Hi there\n---\n\nBody\n");
    assert_eq!(parsed.title, "Hello");
    assert_eq!(parsed.description, "Hi there");
    assert_eq!(parsed.body, "Body\n");
}

#[test]
fn frontmatter_fallback_without_leading_delimiter() {
    let parsed = parse_doc("Just some text\nwith lines\n");
    assert_eq!(parsed.title, "Manatan Docs");
    assert_eq!(parsed.description, "");
    assert_eq!(parsed.body, "Just some text\nwith lines");
}

#[test]
fn frontmatter_fallback_on_unterminated_block() {
    let parsed = parse_doc("---\ntitle: Lost\nno closing line\n");
    assert_eq!(parsed.title, "Manatan Docs");
    assert_eq!(parsed.description, "");
    assert_eq!(parsed.body, "---\ntitle: Lost\nno closing line");
}

#[test]
fn frontmatter_ignores_comments_and_unknown_keys() {
    let parsed = parse_doc("---\n# a comment\nauthor: Kolby\ntitle: Kept\n\n---\nBody");
    assert_eq!(parsed.title, "Kept");
    assert_eq!(parsed.description, "");
    assert_eq!(parsed.body, "Body");
}

#[test]
fn frontmatter_strips_quoted_values() {
    let parsed = parse_doc("---\ntitle: \"Quoted\"\ndescription: 'Single'\n---\nBody");
    assert_eq!(parsed.title, "Quoted");
    assert_eq!(parsed.description, "Single");
}

#[test]
fn quote_stripping_removes_one_matching_layer() {
    assert_eq!(trim_wrapping_quotes("'Hello'"), "Hello");
    assert_eq!(trim_wrapping_quotes("\"Hello\""), "Hello");
    assert_eq!(trim_wrapping_quotes("''Hello''"), "'Hello'");
}

#[test]
fn quote_stripping_leaves_mismatched_quotes() {
    assert_eq!(trim_wrapping_quotes("'Hello\""), "'Hello\"");
    assert_eq!(trim_wrapping_quotes("'"), "'");
    assert_eq!(trim_wrapping_quotes("Hello"), "Hello");
    assert_eq!(trim_wrapping_quotes("''"), "");
}

#[test]
fn every_nav_slug_resolves_to_a_page() {
    for section in &nav_sections() {
        for item in &section.items {
            let page = find_page(item.slug);
            assert!(page.is_some());
            assert_eq!(page.unwrap().slug, item.slug);
        }
    }
}

#[test]
fn every_page_slug_is_in_nav_exactly_once() {
    let sections = nav_sections();
    for page in &all_pages() {
        let count: usize = sections
            .iter()
            .map(|s| s.items.iter().filter(|i| i.slug == page.slug).count())
            .sum();
        assert_eq!(count, 1);
    }
}

#[test]
fn page_slugs_are_unique() {
    let pages = all_pages();
    for (i, a) in pages.iter().enumerate() {
        for b in &pages[i + 1..] {
            assert_ne!(a.slug, b.slug);
        }
    }
}

#[test]
fn find_page_normalizes_its_argument() {
    let page = find_page(" /guides/ ").expect("guides index should exist");
    assert_eq!(page.slug, "guides");
}

#[test]
fn find_page_misses_unknown_slugs() {
    assert!(find_page("guides/unwritten").is_none());
    assert!(find_page("../etc/passwd").is_none());
}

#[test]
fn not_found_page_has_the_reserved_slug() {
    let page = not_found_page();
    assert_eq!(page.slug, "404");
    assert!(find_page("404").is_none());
}
