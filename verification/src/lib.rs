//! Core of a local documentation preview site: slug normalization and
//! routing over a closed set of documents, frontmatter parsing, navigation
//! and table-of-contents derivation, HTML page composition around a markdown
//! conversion, and the polling version token that drives live reload.

pub mod frontmatter;
pub mod nav;
pub mod pages;
pub mod render;
pub mod routing;
pub mod template;
pub mod text;
pub mod version;

pub use frontmatter::{parse_doc, trim_wrapping_quotes, ParsedDoc};
pub use nav::{nav_sections, NavItem, NavSection};
pub use pages::{all_pages, find_page, not_found_page, DocPage};
pub use render::{
    asset_content_type, render_docs_page, render_docs_response, render_fix_prompt_html,
    render_sidebar_html, render_toc_html,
};
pub use routing::{docs_path_for_slug, markdown_path_for_slug, normalize_slug};
pub use text::{escape_html, u64_to_decimal};
pub use version::{latest_docs_timestamp, system_time_to_millis, PreviewVersionState};

use vstd::prelude::*;

verus! {

/// The title a document falls back to when its frontmatter names none.
pub const DEFAULT_TITLE: &'static str = "Manatan Docs";

} // verus!
