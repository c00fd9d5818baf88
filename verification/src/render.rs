use vstd::prelude::*;
use vstd::string::*;

use crate::frontmatter::{parse_doc, spec_parse_doc};
use crate::nav::{nav_sections, spec_nav_sections, NavItem, NavItemView, NavSection, NavSectionView};
use crate::routing::{
    docs_path_for_slug, markdown_path_for_slug, normalize_slug, spec_docs_path,
    spec_markdown_path, spec_normalize_slug,
};
use crate::template::{
    TPL_AFTER_POLL, TPL_BEFORE_TITLE, TPL_CONTENT_TO_TOC, TPL_SIDEBAR_TO_CONTENT,
    TPL_TITLE_TO_SIDEBAR, TPL_TOC_TO_POLL,
};
use crate::text::{
    escape_html, spec_escape_html, spec_trim, str_eq, trim, u64_to_decimal, spec_decimal, view_opt,
};
use crate::DEFAULT_TITLE;

verus! {

/// How often, in milliseconds, a page asks the preview endpoint for the version token.
pub const HOT_RELOAD_POLL_MS: u64 = 1000;

/// Where the documentation sources live, for the edit and issue links.
pub const DOCS_REPO_BASE_URL: &'static str = "https://github.com/KolbyML/Manatan-Documentation";

/// Raw text served for the not-found page when even its backing file cannot be read.
pub const NOT_FOUND_FALLBACK_SOURCE: &'static str = "---\ntitle: Page not found\ndescription: The requested docs page could not be found.\n---\n\n# Page not found\n";

/// Table-of-contents markup shown if the navigation model had no sections at all.
pub const TOC_FALLBACK: &'static str = "<div class=\"label\">Explore</div><a href=\"/docs\">Docs overview<div class=\"small\">Start here</div></a>";

/// What pulldown_cmark's conversion returns for a markdown text, with
/// strikethrough, tables, task lists and footnotes enabled.
pub uninterp spec fn markdown_html_of(md: Seq<char>) -> Seq<char>;

/// Relies on pulldown_cmark's `Parser::new_ext` and `html::push_html`:
/// CommonMark conversion with the fixed extension set (strikethrough, tables,
/// task lists, footnotes); the HTML depends on the markdown text alone and the
/// conversion touches neither filesystem nor network.
#[verifier::external_body]
fn markdown_to_html(markdown: &str) -> (r: String)
    ensures
        r@ == markdown_html_of(markdown@),
{
    let mut options = pulldown_cmark::Options::empty();
    options.insert(pulldown_cmark::Options::ENABLE_STRIKETHROUGH);
    options.insert(pulldown_cmark::Options::ENABLE_TABLES);
    options.insert(pulldown_cmark::Options::ENABLE_TASKLISTS);
    options.insert(pulldown_cmark::Options::ENABLE_FOOTNOTES);
    let parser = pulldown_cmark::Parser::new_ext(markdown, options);
    let mut html_output = String::new();
    pulldown_cmark::html::push_html(&mut html_output, parser);
    html_output
}

/// The window title: the default alone when the parsed title is blank, the
/// trimmed title with the site suffix otherwise.
pub open spec fn spec_title_text(title: Seq<char>) -> Seq<char> {
    if spec_trim(title).len() == 0 {
        DEFAULT_TITLE@
    } else {
        spec_trim(title) + " - Manatan Docs"@
    }
}

fn title_text(title: &str) -> (r: String)
    ensures
        r@ == spec_title_text(title@),
{
    let trimmed = trim(title);
    let mut out = String::new();
    if trimmed.unicode_len() == 0 {
        out.append(DEFAULT_TITLE);
        proof {
            assert(out@ =~= DEFAULT_TITLE@);
        }
    } else {
        out.append(trimmed);
        out.append(" - Manatan Docs");
        proof {
            assert(out@ =~= spec_trim(title@) + " - Manatan Docs"@);
        }
    }
    out
}

/// One sidebar link: the item marked active when its slug is the current one.
pub open spec fn spec_item_sidebar_html(item: NavItemView, active: Seq<char>) -> Seq<char> {
    "<a class=\"item"@ + (if item.slug == active {
        " active"@
    } else {
        Seq::empty()
    }) + "\" href=\""@ + spec_escape_html(spec_docs_path(item.slug)) + "\">"@ + spec_escape_html(item.label)
        + "<span>"@ + spec_escape_html(item.hint) + "</span></a>"@
}

/// The sidebar links of one section, in order.
pub open spec fn spec_items_sidebar_html(items: Seq<NavItemView>, active: Seq<char>) -> Seq<char>
    decreases items.len(),
{
    if items.len() == 0 {
        Seq::empty()
    } else {
        spec_items_sidebar_html(items.drop_last(), active) + spec_item_sidebar_html(
            items.last(),
            active,
        )
    }
}

/// One sidebar section: its heading followed by its links.
pub open spec fn spec_section_sidebar_html(sec: NavSectionView, active: Seq<char>) -> Seq<char> {
    "<div class=\"section\">"@ + spec_escape_html(sec.label) + "</div>"@ + spec_items_sidebar_html(
        sec.items,
        active,
    )
}

/// The whole sidebar: every section in declaration order.
pub open spec fn spec_sidebar_html(secs: Seq<NavSectionView>, active: Seq<char>) -> Seq<char>
    decreases secs.len(),
{
    if secs.len() == 0 {
        Seq::empty()
    } else {
        spec_sidebar_html(secs.drop_last(), active) + spec_section_sidebar_html(
            secs.last(),
            active,
        )
    }
}

fn sidebar_item_html(item: NavItem, active: &str) -> (r: String)
    ensures
        r@ == spec_item_sidebar_html(item@, active@),
{
    let mut out = String::new();
    out.append("<a class=\"item");
    if str_eq(item.slug, active) {
        out.append(" active");
    }
    out.append("\" href=\"");
    let path = docs_path_for_slug(item.slug);
    let path_esc = escape_html(path.as_str());
    out.append(path_esc.as_str());
    out.append("\">");
    let label = escape_html(item.label);
    out.append(label.as_str());
    out.append("<span>");
    let hint = escape_html(item.hint);
    out.append(hint.as_str());
    out.append("</span></a>");
    proof {
        assert(out@ =~= spec_item_sidebar_html(item@, active@));
    }
    out
}

fn sidebar_section_html(sec: &NavSection, active: &str) -> (r: String)
    ensures
        r@ == spec_section_sidebar_html(sec@, active@),
{
    let ghost secv = sec@;
    let mut out = String::new();
    out.append("<div class=\"section\">");
    let label = escape_html(sec.label);
    out.append(label.as_str());
    out.append("</div>");
    proof {
        assert(secv.items.take(0) =~= Seq::<NavItemView>::empty());
        assert(out@ =~= "<div class=\"section\">"@ + spec_escape_html(secv.label) + "</div>"@
            + spec_items_sidebar_html(secv.items.take(0), active@));
    }
    let mut j: usize = 0;
    while j < sec.items.len()
        invariant
            j <= sec.items@.len(),
            secv == sec@,
            secv.items.len() == sec.items@.len(),
            out@ == "<div class=\"section\">"@ + spec_escape_html(secv.label) + "</div>"@
                + spec_items_sidebar_html(secv.items.take(j as int), active@),
        decreases sec.items@.len() - j,
    {
        let item = sec.items[j];
        proof {
            assert(secv.items[j as int] == sec.items@[j as int]@);
            assert(secv.items.take(j + 1).drop_last() =~= secv.items.take(j as int));
            assert(secv.items.take(j + 1).last() == secv.items[j as int]);
        }
        let piece = sidebar_item_html(item, active);
        out.append(piece.as_str());
        j = j + 1;
    }
    proof {
        assert(secv.items.take(secv.items.len() as int) =~= secv.items);
    }
    out
}

/// Renders the sidebar markup, marking the item for `active_slug` active.
pub fn render_sidebar_html(active_slug: &str) -> (r: String)
    ensures
        r@ == spec_sidebar_html(spec_nav_sections(), active_slug@),
{
    let sections = nav_sections();
    let ghost navv = spec_nav_sections();
    let mut out = String::new();
    proof {
        assert(navv.take(0) =~= Seq::<NavSectionView>::empty());
        assert(out@ =~= spec_sidebar_html(navv.take(0), active_slug@));
    }
    let mut i: usize = 0;
    while i < sections.len()
        invariant
            i <= sections@.len(),
            navv == spec_nav_sections(),
            sections@.len() == navv.len(),
            forall|k: int| 0 <= k < sections@.len() ==> #[trigger] sections@[k]@ == navv[k],
            out@ == spec_sidebar_html(navv.take(i as int), active_slug@),
        decreases sections@.len() - i,
    {
        let sec = &sections[i];
        proof {
            assert(sections@[i as int]@ == navv[i as int]);
            assert(navv.take(i + 1).drop_last() =~= navv.take(i as int));
            assert(navv.take(i + 1).last() == navv[i as int]);
        }
        let piece = sidebar_section_html(sec, active_slug);
        out.append(piece.as_str());
        i = i + 1;
    }
    proof {
        assert(navv.take(navv.len() as int) =~= navv);
    }
    out
}

/// Whether a section's items include the given slug.
pub open spec fn spec_items_contain(items: Seq<NavItemView>, slug: Seq<char>) -> bool {
    exists|j: int| 0 <= j < items.len() && items[j].slug == slug
}

fn section_contains(sec: &NavSection, slug: &str) -> (r: bool)
    ensures
        r == spec_items_contain(sec@.items, slug@),
{
    let ghost itemsv = sec@.items;
    let mut j: usize = 0;
    while j < sec.items.len()
        invariant
            j <= sec.items@.len(),
            itemsv == sec@.items,
            itemsv.len() == sec.items@.len(),
            forall|k: int| 0 <= k < j ==> itemsv[k].slug != slug@,
        decreases sec.items@.len() - j,
    {
        let item = sec.items[j];
        proof {
            assert(itemsv[j as int] == sec.items@[j as int]@);
        }
        if str_eq(item.slug, slug) {
            return true;
        }
        j = j + 1;
    }
    false
}

/// The first section whose items include the slug; the first section at all
/// when none does.
pub open spec fn spec_active_section_ix(
    secs: Seq<NavSectionView>,
    active: Seq<char>,
    i: int,
) -> int
    decreases secs.len() - i,
{
    if i < 0 || i >= secs.len() {
        0
    } else if spec_items_contain(secs[i].items, active) {
        i
    } else {
        spec_active_section_ix(secs, active, i + 1)
    }
}

/// One table-of-contents link.
pub open spec fn spec_item_toc_html(item: NavItemView) -> Seq<char> {
    "<a href=\""@ + spec_escape_html(spec_docs_path(item.slug)) + "\">"@ + spec_escape_html(item.label)
        + "<div class=\"small\">"@ + spec_escape_html(item.hint) + "</div></a>"@
}

/// The table-of-contents links of one section, in order.
pub open spec fn spec_items_toc_html(items: Seq<NavItemView>) -> Seq<char>
    decreases items.len(),
{
    if items.len() == 0 {
        Seq::empty()
    } else {
        spec_items_toc_html(items.drop_last()) + spec_item_toc_html(items.last())
    }
}

/// The table of contents: the items of the section owning the current slug
/// (the first section when none does), or a fixed fallback without sections.
pub open spec fn spec_toc_html(secs: Seq<NavSectionView>, active: Seq<char>) -> Seq<char> {
    if secs.len() == 0 {
        TOC_FALLBACK@
    } else {
        "<div class=\"label\">In this section</div>"@ + spec_items_toc_html(
            secs[spec_active_section_ix(secs, active, 0)].items,
        )
    }
}

fn toc_item_html(item: NavItem) -> (r: String)
    ensures
        r@ == spec_item_toc_html(item@),
{
    let mut out = String::new();
    out.append("<a href=\"");
    let path = docs_path_for_slug(item.slug);
    let path_esc = escape_html(path.as_str());
    out.append(path_esc.as_str());
    out.append("\">");
    let label = escape_html(item.label);
    out.append(label.as_str());
    out.append("<div class=\"small\">");
    let hint = escape_html(item.hint);
    out.append(hint.as_str());
    out.append("</div></a>");
    proof {
        assert(out@ =~= spec_item_toc_html(item@));
    }
    out
}

/// Renders the table-of-contents markup for the current slug.
pub fn render_toc_html(active_slug: &str) -> (r: String)
    ensures
        r@ == spec_toc_html(spec_nav_sections(), active_slug@),
{
    let sections = nav_sections();
    let ghost navv = spec_nav_sections();
    if sections.len() == 0 {
        let mut out = String::new();
        out.append(TOC_FALLBACK);
        proof {
            assert(out@ =~= TOC_FALLBACK@);
        }
        return out;
    }
    let mut i: usize = 0;
    let mut found: bool = false;
    while i < sections.len() && !found
        invariant
            i <= sections@.len(),
            navv == spec_nav_sections(),
            sections@.len() == navv.len(),
            forall|k: int| 0 <= k < sections@.len() ==> #[trigger] sections@[k]@ == navv[k],
            found ==> i < sections@.len() && spec_items_contain(navv[i as int].items, active_slug@)
                && spec_active_section_ix(navv, active_slug@, 0) == i as int,
            !found ==> spec_active_section_ix(navv, active_slug@, 0) == spec_active_section_ix(
                navv,
                active_slug@,
                i as int,
            ),
        decreases sections@.len() - i, (if found { 0int } else { 1int }),
    {
        let sec = &sections[i];
        proof {
            assert(sections@[i as int]@ == navv[i as int]);
        }
        if section_contains(sec, active_slug) {
            found = true;
        } else {
            i = i + 1;
        }
    }
    let ix: usize = if found {
        i
    } else {
        0
    };
    proof {
        assert(ix as int == spec_active_section_ix(navv, active_slug@, 0));
        assert(sections@[ix as int]@ == navv[ix as int]);
    }
    let active_section = &sections[ix];
    let ghost itemsv = navv[ix as int].items;
    let mut out = String::new();
    out.append("<div class=\"label\">In this section</div>");
    proof {
        assert(itemsv.take(0) =~= Seq::<NavItemView>::empty());
        assert(out@ =~= "<div class=\"label\">In this section</div>"@ + spec_items_toc_html(
            itemsv.take(0),
        ));
    }
    let mut j: usize = 0;
    while j < active_section.items.len()
        invariant
            j <= active_section.items@.len(),
            navv == spec_nav_sections(),
            itemsv == active_section@.items,
            itemsv.len() == active_section.items@.len(),
            out@ == "<div class=\"label\">In this section</div>"@ + spec_items_toc_html(
                itemsv.take(j as int),
            ),
        decreases active_section.items@.len() - j,
    {
        let item = active_section.items[j];
        proof {
            assert(itemsv[j as int] == active_section.items@[j as int]@);
            assert(itemsv.take(j + 1).drop_last() =~= itemsv.take(j as int));
            assert(itemsv.take(j + 1).last() == itemsv[j as int]);
        }
        let piece = toc_item_html(item);
        out.append(piece.as_str());
        j = j + 1;
    }
    proof {
        assert(itemsv.take(itemsv.len() as int) =~= itemsv);
        assert(itemsv == navv[spec_active_section_ix(navv, active_slug@, 0)].items);
    }
    out
}

/// Head of the report-a-docs-issue block, up to the edit link target.
pub const FIX_PROMPT_HEAD: &'static str = "<section class=\"fix-prompt\"><div class=\"callout tip\"><strong>Found a docs issue?</strong><div>Spotted outdated steps, typos, or missing details? Help improve this page for everyone.</div></div><div class=\"hero-actions\"><a class=\"btn btn-primary\" href=\"";

/// Middle of the report-a-docs-issue block, between the two link targets.
pub const FIX_PROMPT_MID: &'static str = "\" target=\"_blank\" rel=\"noopener noreferrer\">Edit this page</a><a class=\"btn\" href=\"";

/// Tail of the report-a-docs-issue block, after the issue link target.
pub const FIX_PROMPT_TAIL: &'static str = "\" target=\"_blank\" rel=\"noopener noreferrer\">Open an issue</a></section>";

/// The report-a-docs-issue block: empty for the not-found page and for slugs
/// without a backing file, otherwise the fixed block with escaped edit and
/// issue links.
pub open spec fn spec_fix_prompt_html(slug: Seq<char>) -> Seq<char> {
    if spec_normalize_slug(slug) == "404"@ {
        Seq::empty()
    } else {
        match spec_markdown_path(spec_normalize_slug(slug)) {
            None => Seq::empty(),
            Some(path) => FIX_PROMPT_HEAD@ + spec_escape_html(
                DOCS_REPO_BASE_URL@ + "/edit/main/"@ + path,
            ) + FIX_PROMPT_MID@ + spec_escape_html(DOCS_REPO_BASE_URL@ + "/issues/new"@)
                + FIX_PROMPT_TAIL@,
        }
    }
}

/// Renders the report-a-docs-issue block for a slug, when it has a backing
/// file and is not the not-found page.
pub fn render_fix_prompt_html(page_slug: &str) -> (r: String)
    ensures
        r@ == spec_fix_prompt_html(page_slug@),
{
    let normalized = normalize_slug(page_slug);
    if str_eq(normalized, "404") {
        let out = String::new();
        proof {
            assert(out@ =~= Seq::<char>::empty());
        }
        return out;
    }
    let path = match markdown_path_for_slug(page_slug) {
        Some(p) => p,
        None => {
            let out = String::new();
            proof {
                assert(out@ =~= Seq::<char>::empty());
            }
            return out;
        },
    };
    let mut edit_url = String::new();
    edit_url.append(DOCS_REPO_BASE_URL);
    edit_url.append("/edit/main/");
    edit_url.append(path);
    let mut issue_url = String::new();
    issue_url.append(DOCS_REPO_BASE_URL);
    issue_url.append("/issues/new");
    let mut out = String::new();
    out.append(FIX_PROMPT_HEAD);
    let edit_esc = escape_html(edit_url.as_str());
    out.append(edit_esc.as_str());
    out.append(FIX_PROMPT_MID);
    let issue_esc = escape_html(issue_url.as_str());
    out.append(issue_esc.as_str());
    out.append(FIX_PROMPT_TAIL);
    proof {
        assert(edit_url@ =~= DOCS_REPO_BASE_URL@ + "/edit/main/"@ + path@);
        assert(issue_url@ =~= DOCS_REPO_BASE_URL@ + "/issues/new"@);
        assert(out@ =~= spec_fix_prompt_html(page_slug@));
    }
    out
}

/// The full page: the template pieces with the escaped title, sidebar, main
/// content, table of contents and decimal poll interval substituted in order.
pub open spec fn spec_page_html(
    title: Seq<char>,
    sidebar: Seq<char>,
    toc: Seq<char>,
    content: Seq<char>,
) -> Seq<char> {
    TPL_BEFORE_TITLE@ + spec_escape_html(title) + TPL_TITLE_TO_SIDEBAR@ + sidebar
        + TPL_SIDEBAR_TO_CONTENT@ + content + TPL_CONTENT_TO_TOC@ + toc + TPL_TOC_TO_POLL@
        + spec_decimal(HOT_RELOAD_POLL_MS as nat) + TPL_AFTER_POLL@
}

fn compose_page(title: &str, sidebar: &str, toc: &str, content: &str) -> (r: String)
    ensures
        r@ == spec_page_html(title@, sidebar@, toc@, content@),
{
    let mut out = String::new();
    out.append(TPL_BEFORE_TITLE);
    let title_esc = escape_html(title);
    out.append(title_esc.as_str());
    out.append(TPL_TITLE_TO_SIDEBAR);
    out.append(sidebar);
    out.append(TPL_SIDEBAR_TO_CONTENT);
    out.append(content);
    out.append(TPL_CONTENT_TO_TOC);
    out.append(toc);
    out.append(TPL_TOC_TO_POLL);
    let poll = u64_to_decimal(HOT_RELOAD_POLL_MS);
    out.append(poll.as_str());
    out.append(TPL_AFTER_POLL);
    proof {
        assert(out@ =~= spec_page_html(title@, sidebar@, toc@, content@));
    }
    out
}

/// The page served for a slug and its raw document text.
pub open spec fn spec_render_page(slug: Seq<char>, source: Seq<char>) -> Seq<char> {
    let pd = spec_parse_doc(source);
    spec_page_html(
        spec_title_text(pd.title),
        spec_sidebar_html(spec_nav_sections(), slug),
        spec_toc_html(spec_nav_sections(), slug),
        markdown_html_of(pd.body) + spec_fix_prompt_html(slug),
    )
}

/// Renders the document page for an already-normalized slug.
pub fn render_docs_page(page_slug: &str, source: &str) -> (r: String)
    ensures
        r@ == spec_render_page(page_slug@, source@),
{
    let parsed = parse_doc(source);
    let mut content_html = markdown_to_html(parsed.body);
    let prompt = render_fix_prompt_html(page_slug);
    content_html.append(prompt.as_str());
    let sidebar = render_sidebar_html(page_slug);
    let toc = render_toc_html(page_slug);
    let title = title_text(parsed.title);
    compose_page(title.as_str(), sidebar.as_str(), toc.as_str(), content_html.as_str())
}

/// The response for a route request: `source` is the document text read for
/// the slug (`None` when the slug is unknown or unreadable), and the second
/// component says whether the page was found — the not-found page body comes
/// with a miss status otherwise.
pub open spec fn spec_docs_response(
    slug: Seq<char>,
    source: Option<Seq<char>>,
    not_found_source: Option<Seq<char>>,
) -> (Seq<char>, bool) {
    match source {
        Some(src) => (spec_render_page(spec_normalize_slug(slug), src), true),
        None => {
            let src = match not_found_source {
                Some(f) => f,
                None => NOT_FOUND_FALLBACK_SOURCE@,
            };
            (spec_render_page("404"@, src), false)
        },
    }
}

/// Renders the response for a route request from the text its document (and
/// the not-found document) loaded to; the flag reports a found page.
pub fn render_docs_response(slug: &str, source: Option<&str>, not_found_source: Option<&str>) -> (r:
    (String, bool))
    ensures
        r.0@ == spec_docs_response(slug@, view_opt(source), view_opt(not_found_source)).0,
        r.1 == spec_docs_response(slug@, view_opt(source), view_opt(not_found_source)).1,
{
    match source {
        Some(src) => {
            let normalized = normalize_slug(slug);
            (render_docs_page(normalized, src), true)
        },
        None => {
            let src = match not_found_source {
                Some(f) => f,
                None => NOT_FOUND_FALLBACK_SOURCE,
            };
            (render_docs_page("404", src), false)
        },
    }
}

/// Law: a request whose slug loads no document is answered with the not-found
/// document's page and a miss status, while a request for the not-found slug
/// itself is answered with the same page body and a hit status.
pub proof fn lemma_not_found_status(slug: Seq<char>, src404: Seq<char>)
    requires
        spec_markdown_path(spec_normalize_slug(slug)) is None,
    ensures
        spec_docs_response(slug, None, Some(src404)).0 == spec_docs_response(
            "404"@,
            Some(src404),
            Some(src404),
        ).0,
        spec_docs_response(slug, None, Some(src404)).1 == false,
        spec_docs_response("404"@, Some(src404), Some(src404)).1 == true,
{
    reveal_strlit("404");
    crate::routing::lemma_normalize_identity("404"@);
}

/// The content type an asset is served with, chosen by its file extension.
pub open spec fn spec_asset_content_type(extension: Option<Seq<char>>) -> Seq<char> {
    match extension {
        Some(e) => if e == "png"@ {
            "image/png"@
        } else if e == "jpg"@ || e == "jpeg"@ {
            "image/jpeg"@
        } else if e == "gif"@ {
            "image/gif"@
        } else if e == "svg"@ {
            "image/svg+xml"@
        } else if e == "webp"@ {
            "image/webp"@
        } else {
            "application/octet-stream"@
        },
        None => "application/octet-stream"@,
    }
}

/// Picks the content type for an asset from its file extension, if it has one.
pub fn asset_content_type(extension: Option<&str>) -> (r: &'static str)
    ensures
        r@ == spec_asset_content_type(view_opt(extension)),
{
    match extension {
        Some(e) => if str_eq(e, "png") {
            "image/png"
        } else if str_eq(e, "jpg") || str_eq(e, "jpeg") {
            "image/jpeg"
        } else if str_eq(e, "gif") {
            "image/gif"
        } else if str_eq(e, "svg") {
            "image/svg+xml"
        } else if str_eq(e, "webp") {
            "image/webp"
        } else {
            "application/octet-stream"
        },
        None => "application/octet-stream",
    }
}

} // verus!
