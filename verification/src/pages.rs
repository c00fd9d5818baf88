use vstd::prelude::*;
use vstd::string::*;

use crate::text::str_eq;
use crate::routing::{normalize_slug, spec_normalize_slug};
use crate::nav::{spec_nav_sections, spec_nav_slugs, spec_section_slugs, NavSectionView};

verus! {

/// A document known at startup: its route slug and its raw markdown source.
#[derive(Debug, Clone, Copy, PartialEq, Eq)]
pub struct DocPage {
    pub slug: &'static str,
    pub source: &'static str,
}

/// The mathematical shape of a document.
pub struct DocPageView {
    pub slug: Seq<char>,
    pub source: Seq<char>,
}

impl View for DocPage {
    type V = DocPageView;

    open spec fn view(&self) -> DocPageView {
        DocPageView { slug: self.slug@, source: self.source@ }
    }
}

pub const HOME_SOURCE: &'static str = "---\ntitle: Overview\ndescription: What Manatan is and where to start\n---\n\n# Manatan\n\nManatan is a self-hosted reader and player for your own manga, anime and novel files.\n\nPick a guide from the sidebar to get going, or start with [Getting started](/docs/guides/getting-started).\n";

pub const GUIDES_INDEX_SOURCE: &'static str = "---\ntitle: Guides\ndescription: Step-by-step setup guides\n---\n\n# Guides\n\nThese guides walk through installing Manatan and adding your own libraries.\n\n- [Getting started](/docs/guides/getting-started)\n- [Local manga](/docs/guides/local-manga)\n- [Local anime](/docs/guides/local-anime)\n- [Novels (EPUB)](/docs/guides/novels)\n- [Troubleshooting](/docs/guides/troubleshooting)\n";

pub const GETTING_STARTED_SOURCE: &'static str = "---\ntitle: Getting started\ndescription: Install Manatan and take the first steps\n---\n\n# Getting started\n\n1. Download the latest release for your platform.\n2. Launch the app and pick a folder for your library.\n3. Add sources or point Manatan at local files.\n\n> Tip: the app watches your library folders, so new files show up on their own.\n";

pub const LOCAL_MANGA_SOURCE: &'static str = "---\ntitle: Local manga\ndescription: Folder structure and supported formats\n---\n\n# Local manga\n\nPut each series in a folder of its own; chapters may be folders of images or archive files.\n\nSupported formats: `cbz`, `zip`, plain image folders.\n";

pub const LOCAL_ANIME_SOURCE: &'static str = "---\ntitle: Local anime\ndescription: Folder structure and supported formats\n---\n\n# Local anime\n\nPut each show in a folder of its own, one episode per video file.\n\nSupported formats: `mkv`, `mp4`, `webm`.\n";

pub const NOVELS_SOURCE: &'static str = "---\ntitle: Novels (EPUB)\ndescription: Importing and reading EPUB novels\n---\n\n# Novels\n\nImport EPUB files straight from the library screen, then read them in the built-in reader.\n";

pub const TROUBLESHOOTING_SOURCE: &'static str = "---\ntitle: Troubleshooting\ndescription: Fixes for common issues\n---\n\n# Troubleshooting\n\n## The app cannot see my files\n\nCheck the folder permissions and the library path.\n\n## Playback stutters\n\nTry a different hardware-decoding setting.\n";

pub const FAQ_INDEX_SOURCE: &'static str = "---\ntitle: FAQ\ndescription: Frequently asked questions\n---\n\n# FAQ\n\nBrowse the topics in the sidebar, or start with [General](/docs/faq/general).\n";

pub const FAQ_GENERAL_SOURCE: &'static str = "---\ntitle: General\ndescription: Downloads, updates and privacy\n---\n\n# General questions\n\n**Where do I download Manatan?** From the project releases page.\n\n**Does Manatan phone home?** No; everything stays on your machine.\n";

pub const FAQ_LOCAL_FILES_SOURCE: &'static str = "---\ntitle: Local files\ndescription: Files not showing up, ordering\n---\n\n# Local files\n\n**My files do not show up.** Make sure they sit inside the library folder and use a supported format.\n\n**Chapters sort oddly.** Zero-pad the chapter numbers, for example `ch-007`.\n";

pub const NOT_FOUND_SOURCE: &'static str = "---\ntitle: Page not found\ndescription: The requested docs page could not be found.\n---\n\n# Page not found\n\nThe page you asked for does not exist. Head back to the [docs home](/docs).\n";

/// The closed set of documents, in declaration order.
pub open spec fn spec_all_pages() -> Seq<DocPageView> {
    seq![
        DocPageView { slug: ""@, source: HOME_SOURCE@ },
        DocPageView { slug: "guides"@, source: GUIDES_INDEX_SOURCE@ },
        DocPageView { slug: "guides/getting-started"@, source: GETTING_STARTED_SOURCE@ },
        DocPageView { slug: "guides/local-manga"@, source: LOCAL_MANGA_SOURCE@ },
        DocPageView { slug: "guides/local-anime"@, source: LOCAL_ANIME_SOURCE@ },
        DocPageView { slug: "guides/novels"@, source: NOVELS_SOURCE@ },
        DocPageView { slug: "guides/troubleshooting"@, source: TROUBLESHOOTING_SOURCE@ },
        DocPageView { slug: "faq"@, source: FAQ_INDEX_SOURCE@ },
        DocPageView { slug: "faq/general"@, source: FAQ_GENERAL_SOURCE@ },
        DocPageView { slug: "faq/local-files"@, source: FAQ_LOCAL_FILES_SOURCE@ },
    ]
}

/// Every document the site serves, in declaration order.
pub fn all_pages() -> (r: Vec<DocPage>)
    ensures
        r@.len() == spec_all_pages().len(),
        forall|i: int| 0 <= i < r@.len() ==> #[trigger] r@[i]@ == spec_all_pages()[i],
{
    let mut v: Vec<DocPage> = Vec::new();
    v.push(DocPage { slug: "", source: HOME_SOURCE });
    v.push(DocPage { slug: "guides", source: GUIDES_INDEX_SOURCE });
    v.push(DocPage { slug: "guides/getting-started", source: GETTING_STARTED_SOURCE });
    v.push(DocPage { slug: "guides/local-manga", source: LOCAL_MANGA_SOURCE });
    v.push(DocPage { slug: "guides/local-anime", source: LOCAL_ANIME_SOURCE });
    v.push(DocPage { slug: "guides/novels", source: NOVELS_SOURCE });
    v.push(DocPage { slug: "guides/troubleshooting", source: TROUBLESHOOTING_SOURCE });
    v.push(DocPage { slug: "faq", source: FAQ_INDEX_SOURCE });
    v.push(DocPage { slug: "faq/general", source: FAQ_GENERAL_SOURCE });
    v.push(DocPage { slug: "faq/local-files", source: FAQ_LOCAL_FILES_SOURCE });
    v
}

/// The document served for unknown routes.
pub open spec fn spec_not_found_page() -> DocPageView {
    DocPageView { slug: "404"@, source: NOT_FOUND_SOURCE@ }
}

/// The fallback document, always resolvable.
pub fn not_found_page() -> (r: DocPage)
    ensures
        r@ == spec_not_found_page(),
{
    DocPage { slug: "404", source: NOT_FOUND_SOURCE }
}

/// The first document whose slug is `n`, scanning from index `i`.
pub open spec fn spec_find_page_from(pages: Seq<DocPageView>, n: Seq<char>, i: int) -> Option<
    DocPageView,
>
    decreases pages.len() - i,
{
    if i < 0 || i >= pages.len() {
        None
    } else if pages[i].slug == n {
        Some(pages[i])
    } else {
        spec_find_page_from(pages, n, i + 1)
    }
}

/// The document a normalized slug resolves to, if any.
pub open spec fn spec_find_page(n: Seq<char>) -> Option<DocPageView> {
    spec_find_page_from(spec_all_pages(), n, 0)
}

/// The view of an optional document.
pub open spec fn view_opt_page(o: Option<DocPage>) -> Option<DocPageView> {
    match o {
        Some(p) => Some(p@),
        None => None,
    }
}

/// Resolves a route fragment to a known document, normalizing it first.
pub fn find_page(slug: &str) -> (r: Option<DocPage>)
    ensures
        view_opt_page(r) == spec_find_page(spec_normalize_slug(slug@)),
{
    let normalized = normalize_slug(slug);
    let pages = all_pages();
    let ghost n = spec_normalize_slug(slug@);
    let mut i: usize = 0;
    while i < pages.len()
        invariant
            i <= pages.len(),
            pages@.len() == spec_all_pages().len(),
            forall|k: int| 0 <= k < pages@.len() ==> #[trigger] pages@[k]@ == spec_all_pages()[k],
            normalized@ == n,
            n == spec_normalize_slug(slug@),
            spec_find_page(n) == spec_find_page_from(spec_all_pages(), n, i as int),
        decreases pages.len() - i,
    {
        let page = pages[i];
        proof {
            assert(page@ == spec_all_pages()[i as int]);
        }
        if str_eq(page.slug, normalized) {
            proof {
                assert(spec_find_page_from(spec_all_pages(), n, i as int) == Some(
                    spec_all_pages()[i as int],
                ));
            }
            return Some(page);
        }
        proof {
            assert(spec_find_page_from(spec_all_pages(), n, i as int) == spec_find_page_from(
                spec_all_pages(),
                n,
                i + 1,
            ));
        }
        i = i + 1;
    }
    None
}

/// A slug resolves from position `i` on exactly when some later document carries it.
pub proof fn lemma_find_page_from_some(pages: Seq<DocPageView>, n: Seq<char>, i: int)
    requires
        0 <= i <= pages.len(),
    ensures
        (spec_find_page_from(pages, n, i) is Some) <==> (exists|k: int|
            i <= k < pages.len() && #[trigger] pages[k].slug == n),
    decreases pages.len() - i,
{
    if i < pages.len() {
        if pages[i].slug == n {
        } else {
            lemma_find_page_from_some(pages, n, i + 1);
        }
    }
}

/// Law: the navigation model and the router agree. The slugs of the
/// navigation, flattened in declaration order, are exactly the slugs of the
/// known documents in order; document slugs are pairwise distinct, so every
/// document except the not-found page stands in the navigation exactly once;
/// and every navigation entry resolves to a document.
pub proof fn lemma_nav_matches_router()
    ensures
        spec_nav_slugs(spec_nav_sections()) == spec_all_pages().map_values(
            |p: DocPageView| p.slug,
        ),
        forall|k1: int, k2: int|
            0 <= k1 < k2 < spec_all_pages().len() ==> #[trigger] spec_all_pages()[k1].slug
                != #[trigger] spec_all_pages()[k2].slug,
        forall|i: int, j: int|
            0 <= i < spec_nav_sections().len() && 0 <= j < spec_nav_sections()[i].items.len()
                ==> spec_find_page(#[trigger] spec_nav_sections()[i].items[j].slug) is Some,
        forall|i: int, j: int|
            0 <= i < spec_nav_sections().len() && 0 <= j < spec_nav_sections()[i].items.len()
                ==> #[trigger] spec_nav_sections()[i].items[j].slug != spec_not_found_page().slug,
{
    let navv = spec_nav_sections();
    let pages = spec_all_pages();
    let pre2 = seq![navv[0], navv[1]];
    let pre1 = seq![navv[0]];
    assert(navv.drop_last() =~= pre2);
    assert(pre2.drop_last() =~= pre1);
    assert(pre1.drop_last() =~= Seq::<NavSectionView>::empty());
    assert(navv.last() == navv[2]);
    assert(pre2.last() == navv[1]);
    assert(pre1.last() == navv[0]);
    assert(spec_nav_slugs(Seq::<NavSectionView>::empty()) == Seq::<Seq<char>>::empty());
    assert(spec_nav_slugs(pre1) == Seq::<Seq<char>>::empty() + spec_section_slugs(navv[0]));
    assert(spec_nav_slugs(pre2) == spec_nav_slugs(pre1) + spec_section_slugs(navv[1]));
    assert(spec_nav_slugs(navv) == spec_nav_slugs(pre2) + spec_section_slugs(navv[2]));
    assert(spec_nav_slugs(navv) =~= pages.map_values(|p: DocPageView| p.slug));
    reveal_strlit("");
    reveal_strlit("guides");
    reveal_strlit("guides/getting-started");
    reveal_strlit("guides/local-manga");
    reveal_strlit("guides/local-anime");
    reveal_strlit("guides/novels");
    reveal_strlit("guides/troubleshooting");
    reveal_strlit("faq");
    reveal_strlit("faq/general");
    reveal_strlit("faq/local-files");
    assert forall|k1: int, k2: int| 0 <= k1 < k2 < pages.len() implies #[trigger] pages[k1].slug
        != #[trigger] pages[k2].slug by {
        if pages[k1].slug.len() == pages[k2].slug.len() {
            if k1 == 2 && k2 == 6 {
                assert(pages[k1].slug[7] != pages[k2].slug[7]);
            } else if k1 == 3 && k2 == 4 {
                assert(pages[k1].slug[13] != pages[k2].slug[13]);
            }
        }
    }
    assert forall|i: int, j: int|
        0 <= i < spec_nav_sections().len() && 0 <= j
            < spec_nav_sections()[i].items.len() implies spec_find_page(
        #[trigger] spec_nav_sections()[i].items[j].slug,
    ) is Some by {
        let n = navv[i].items[j].slug;
        if i == 0 {
            assert(pages[0].slug == n);
        } else if i == 1 {
            assert(pages[j + 1].slug == n);
        } else {
            assert(pages[j + 7].slug == n);
        }
        lemma_find_page_from_some(pages, n, 0);
    }
    reveal_strlit("404");
    assert forall|i: int, j: int|
        0 <= i < spec_nav_sections().len() && 0 <= j
            < spec_nav_sections()[i].items.len() implies #[trigger] spec_nav_sections()[i].items[j].slug
        != spec_not_found_page().slug by {
        let n = navv[i].items[j].slug;
        if n.len() == spec_not_found_page().slug.len() {
            assert(n[0] != spec_not_found_page().slug[0]);
        }
    }
}

} // verus!
