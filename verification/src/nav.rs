use vstd::prelude::*;

verus! {

/// A link descriptor in the navigation model.
#[derive(Debug, Clone, Copy, PartialEq, Eq)]
pub struct NavItem {
    pub slug: &'static str,
    pub label: &'static str,
    pub hint: &'static str,
}

/// A labeled, ordered group of navigation links.
#[derive(Debug, Clone)]
pub struct NavSection {
    pub label: &'static str,
    pub items: Vec<NavItem>,
}

/// The mathematical shape of a navigation link.
pub struct NavItemView {
    pub slug: Seq<char>,
    pub label: Seq<char>,
    pub hint: Seq<char>,
}

/// The mathematical shape of a navigation section.
pub struct NavSectionView {
    pub label: Seq<char>,
    pub items: Seq<NavItemView>,
}

impl View for NavItem {
    type V = NavItemView;

    open spec fn view(&self) -> NavItemView {
        NavItemView { slug: self.slug@, label: self.label@, hint: self.hint@ }
    }
}

impl View for NavSection {
    type V = NavSectionView;

    open spec fn view(&self) -> NavSectionView {
        NavSectionView {
            label: self.label@,
            items: self.items@.map_values(|it: NavItem| it@),
        }
    }
}

/// The static navigation model: ordered sections of ordered items.
pub open spec fn spec_nav_sections() -> Seq<NavSectionView> {
    seq![
        NavSectionView {
            label: "Docs"@,
            items: seq![
                NavItemView { slug: ""@, label: "Overview"@, hint: "Start here"@ },
            ],
        },
        NavSectionView {
            label: "Guides"@,
            items: seq![
                NavItemView { slug: "guides"@, label: "Guides home"@, hint: "Browse guides"@ },
                NavItemView {
                    slug: "guides/getting-started"@,
                    label: "Getting started"@,
                    hint: "Install + first steps"@,
                },
                NavItemView {
                    slug: "guides/local-manga"@,
                    label: "Local manga"@,
                    hint: "Folder structure + formats"@,
                },
                NavItemView {
                    slug: "guides/local-anime"@,
                    label: "Local anime"@,
                    hint: "Folder structure + formats"@,
                },
                NavItemView {
                    slug: "guides/novels"@,
                    label: "Novels (EPUB)"@,
                    hint: "Import + reading"@,
                },
                NavItemView {
                    slug: "guides/troubleshooting"@,
                    label: "Troubleshooting"@,
                    hint: "Common issues"@,
                },
            ],
        },
        NavSectionView {
            label: "FAQ"@,
            items: seq![
                NavItemView { slug: "faq"@, label: "FAQ home"@, hint: "Browse topics"@ },
                NavItemView {
                    slug: "faq/general"@,
                    label: "General"@,
                    hint: "Downloads + privacy"@,
                },
                NavItemView {
                    slug: "faq/local-files"@,
                    label: "Local files"@,
                    hint: "Not showing? ordering"@,
                },
            ],
        },
    ]
}

/// The slugs of one section's items, in order.
pub open spec fn spec_section_slugs(sec: NavSectionView) -> Seq<Seq<char>> {
    sec.items.map_values(|it: NavItemView| it.slug)
}

/// Every slug in the navigation model, flattened in declaration order.
pub open spec fn spec_nav_slugs(secs: Seq<NavSectionView>) -> Seq<Seq<char>>
    decreases secs.len(),
{
    if secs.len() == 0 {
        Seq::empty()
    } else {
        spec_nav_slugs(secs.drop_last()) + spec_section_slugs(secs.last())
    }
}

/// The static navigation model, in rendering order.
pub fn nav_sections() -> (r: Vec<NavSection>)
    ensures
        r@.len() == spec_nav_sections().len(),
        forall|i: int| 0 <= i < r@.len() ==> #[trigger] r@[i]@ == spec_nav_sections()[i],
{
    let mut doc_items: Vec<NavItem> = Vec::new();
    doc_items.push(NavItem { slug: "", label: "Overview", hint: "Start here" });

    let mut guide_items: Vec<NavItem> = Vec::new();
    guide_items.push(NavItem { slug: "guides", label: "Guides home", hint: "Browse guides" });
    guide_items.push(
        NavItem {
            slug: "guides/getting-started",
            label: "Getting started",
            hint: "Install + first steps",
        },
    );
    guide_items.push(
        NavItem {
            slug: "guides/local-manga",
            label: "Local manga",
            hint: "Folder structure + formats",
        },
    );
    guide_items.push(
        NavItem {
            slug: "guides/local-anime",
            label: "Local anime",
            hint: "Folder structure + formats",
        },
    );
    guide_items.push(
        NavItem { slug: "guides/novels", label: "Novels (EPUB)", hint: "Import + reading" },
    );
    guide_items.push(
        NavItem { slug: "guides/troubleshooting", label: "Troubleshooting", hint: "Common issues" },
    );

    let mut faq_items: Vec<NavItem> = Vec::new();
    faq_items.push(NavItem { slug: "faq", label: "FAQ home", hint: "Browse topics" });
    faq_items.push(NavItem { slug: "faq/general", label: "General", hint: "Downloads + privacy" });
    faq_items.push(
        NavItem { slug: "faq/local-files", label: "Local files", hint: "Not showing? ordering" },
    );

    let mut sections: Vec<NavSection> = Vec::new();
    let docs_section = NavSection { label: "Docs", items: doc_items };
    let guides_section = NavSection { label: "Guides", items: guide_items };
    let faq_section = NavSection { label: "FAQ", items: faq_items };
    proof {
        assert(docs_section@.items =~= spec_nav_sections()[0].items);
        assert(guides_section@.items =~= spec_nav_sections()[1].items);
        assert(faq_section@.items =~= spec_nav_sections()[2].items);
    }
    sections.push(docs_section);
    sections.push(guides_section);
    sections.push(faq_section);
    sections
}

} // verus!
