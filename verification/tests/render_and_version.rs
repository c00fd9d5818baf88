use manatan_documentation::{
    asset_content_type, docs_path_for_slug, escape_html, latest_docs_timestamp,
    markdown_path_for_slug, render_docs_page, render_docs_response, render_fix_prompt_html,
    system_time_to_millis, u64_to_decimal, PreviewVersionState,
};

#[test]
fn escape_html_escapes_the_five_unsafe_characters() {
    assert_eq!(escape_html("<&\"'>"), "&lt;&amp;&quot;&#39;&gt;");
    assert_eq!(escape_html("plain text"), "plain text");
    assert_eq!(escape_html("a < b & c"), "a &lt; b &amp; c");
}

#[test]
fn composed_page_escapes_unsafe_title_characters() {
    let page = render_docs_page("", "---\ntitle: A <b> & \"c\"\n---\nBody");
    assert!(page.contains("<title>A &lt;b&gt; &amp; &quot;c&quot; - Manatan Docs - Preview</title>"));
    assert!(!page.contains("<title>A <b>"));
}

#[test]
fn composed_page_contains_converted_markdown() {
    let page = render_docs_page("", "---\ntitle: T\n---\n\n# Body heading\n\nSome ~~old~~ text\n");
    assert!(page.contains("<h1>Body heading</h1>"));
    assert!(page.contains("<del>old</del>"));
}

#[test]
fn composed_page_defaults_blank_title() {
    let page = render_docs_page("", "---\ntitle:   \n---\nBody");
    assert!(page.contains("<title>Manatan Docs - Preview</title>"));
}

#[test]
fn composed_page_marks_active_sidebar_item() {
    let page = render_docs_page("guides", "# G\n");
    assert!(page.contains("<a class=\"item active\" href=\"/docs/guides\">"));
    assert!(!page.contains("<a class=\"item active\" href=\"/docs/faq\">"));
}

#[test]
fn toc_lists_the_section_of_the_current_slug() {
    let page = render_docs_page("faq/general", "# F\n");
    assert!(page.contains("<div class=\"label\">In this section</div>"));
    assert!(page.contains("<a href=\"/docs/faq/local-files\">"));
    assert!(!page.contains("<a href=\"/docs/guides/novels\">Novels"));
}

#[test]
fn miss_and_direct_not_found_share_body_but_not_status() {
    let source = "---\ntitle: Page not found\n---\nGone";
    let miss = render_docs_response("guides/unwritten", None, Some(source));
    let direct = render_docs_response("404", Some(source), Some(source));
    assert!(!miss.1);
    assert!(direct.1);
    assert_eq!(miss.0, direct.0);
}

#[test]
fn found_page_reports_success() {
    let (page, found) = render_docs_response("guides", Some("# Guides\n"), None);
    assert!(found);
    assert!(page.contains("<h1>Guides</h1>"));
}

#[test]
fn missing_fallback_still_renders_not_found() {
    let (page, found) = render_docs_response("guides/unwritten", None, None);
    assert!(!found);
    assert!(page.contains("<h1>Page not found</h1>"));
}

#[test]
fn fix_prompt_appears_only_for_backed_slugs() {
    let prompt = render_fix_prompt_html("guides/novels");
    assert!(prompt.contains(
        "https://github.com/KolbyML/Manatan-Documentation/edit/main/docs/guides/novels.md"
    ));
    assert!(prompt.contains("Open an issue"));
    assert_eq!(render_fix_prompt_html("guides/unwritten"), "");
    assert_eq!(render_fix_prompt_html("404"), "");
}

#[test]
fn not_found_page_omits_the_fix_prompt() {
    let (page, found) = render_docs_response("guides/unwritten", None, None);
    assert!(!found);
    assert!(!page.contains("Found a docs issue?"));
    let (hit, _) = render_docs_response("guides", Some("# G\n"), None);
    assert!(hit.contains("Found a docs issue?"));
}

#[test]
fn composed_page_treats_unicode_blank_title_as_blank() {
    let page = render_docs_page("", "---\ntitle: \u{a0}\u{2003}\n---\nBody");
    assert!(page.contains("<title>Manatan Docs - Preview</title>"));
}

#[test]
fn markdown_paths_cover_the_known_set() {
    assert_eq!(markdown_path_for_slug(""), Some("docs/index.md"));
    assert_eq!(markdown_path_for_slug("/guides/"), Some("docs/guides/index.md"));
    assert_eq!(markdown_path_for_slug("404"), Some("docs/404.md"));
    assert_eq!(markdown_path_for_slug("guides/unwritten"), None);
}

#[test]
fn docs_paths_link_to_the_docs_prefix() {
    assert_eq!(docs_path_for_slug(""), "/docs");
    assert_eq!(docs_path_for_slug("///"), "/docs");
    assert_eq!(docs_path_for_slug("guides/novels"), "/docs/guides/novels");
}

#[test]
fn asset_content_types_follow_the_extension() {
    assert_eq!(asset_content_type(Some("png")), "image/png");
    assert_eq!(asset_content_type(Some("jpg")), "image/jpeg");
    assert_eq!(asset_content_type(Some("jpeg")), "image/jpeg");
    assert_eq!(asset_content_type(Some("gif")), "image/gif");
    assert_eq!(asset_content_type(Some("svg")), "image/svg+xml");
    assert_eq!(asset_content_type(Some("webp")), "image/webp");
    assert_eq!(asset_content_type(Some("txt")), "application/octet-stream");
    assert_eq!(asset_content_type(None), "application/octet-stream");
}

#[test]
fn version_token_is_the_maximum_observed_time() {
    assert_eq!(latest_docs_timestamp(&vec![]), 0);
    assert_eq!(latest_docs_timestamp(&vec![5, 3, 9]), 9);
    assert_eq!(latest_docs_timestamp(&vec![7]), 7);
}

#[test]
fn version_token_stable_then_strictly_increasing() {
    let unchanged = vec![5, 3, 9];
    let first = latest_docs_timestamp(&unchanged);
    let second = latest_docs_timestamp(&unchanged);
    assert_eq!(first, second);

    let touched = vec![5, 12, 9];
    let after = latest_docs_timestamp(&touched);
    assert!(after > first);
    assert_eq!(after, 12);
}

#[test]
fn observe_reports_transitions_only() {
    let mut state = PreviewVersionState::new(7);
    assert!(!state.observe(7));
    assert!(state.observe(9));
    assert!(!state.observe(9));
    assert_eq!(state.last_observed_version, 9);
}

#[test]
fn decimal_rendering_matches_display() {
    assert_eq!(u64_to_decimal(0), "0");
    assert_eq!(u64_to_decimal(1000), "1000");
    assert_eq!(u64_to_decimal(18446744073709551615), "18446744073709551615");
}

#[test]
fn system_time_millis_from_seconds_and_nanos() {
    assert_eq!(system_time_to_millis(0, 0), 0);
    assert_eq!(system_time_to_millis(1, 500_000), 1000);
    assert_eq!(system_time_to_millis(2, 7_000_000), 2007);
}
