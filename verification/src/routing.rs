use vstd::prelude::*;
use vstd::string::*;

use crate::text::{
    trim, trim_start_by, trim_end_by, str_eq, spec_trim, spec_trim_start_by, spec_trim_end_by,
    first_ix, last_ix_end, lemma_first_ix_is, lemma_last_ix_end_is, lemma_first_ix_props,
    lemma_last_ix_end_props, view_opt, CharClass, is_space_char,
};

verus! {

/// A route fragment with leading and trailing whitespace, then leading and
/// trailing slashes, removed. The empty result names the documentation home.
pub open spec fn spec_normalize_slug(s: Seq<char>) -> Seq<char> {
    spec_trim_end_by(
        spec_trim_start_by(spec_trim(s), CharClass::NonSlash),
        CharClass::NonSlash,
    )
}

/// Canonicalizes a route fragment into a lookup key. Total; never fails.
pub fn normalize_slug<'a>(slug: &'a str) -> (r: &'a str)
    ensures
        r@ == spec_normalize_slug(slug@),
{
    trim_end_by(trim_start_by(trim(slug), CharClass::NonSlash), CharClass::NonSlash)
}

/// Law: a normalized slug keeps its interior intact — the result is always a
/// contiguous run of the input.
pub proof fn lemma_normalize_is_subrange(s: Seq<char>)
    ensures
        exists|i: int, j: int|
            0 <= i <= j <= s.len() && spec_normalize_slug(s) == #[trigger] s.subrange(i, j),
{
    lemma_first_ix_props(s, CharClass::NonSpace);
    let a = first_ix(s, CharClass::NonSpace) as int;
    let t1 = s.skip(a);
    lemma_last_ix_end_props(t1, CharClass::NonSpace);
    let b = last_ix_end(t1, CharClass::NonSpace) as int;
    let t2 = t1.take(b);
    lemma_first_ix_props(t2, CharClass::NonSlash);
    let c = first_ix(t2, CharClass::NonSlash) as int;
    let t3 = t2.skip(c);
    lemma_last_ix_end_props(t3, CharClass::NonSlash);
    let d = last_ix_end(t3, CharClass::NonSlash) as int;
    let t4 = t3.take(d);
    assert(t4 =~= s.subrange(a + c, a + c + d));
    assert(spec_normalize_slug(s) == s.subrange(a + c, a + c + d));
}

/// Law: normalization is idempotent, except on inputs where stripping slashes
/// exposes new edge whitespace (there a second pass trims further).
pub proof fn lemma_normalize_idempotent(s: Seq<char>)
    requires
        spec_normalize_slug(s).len() > 0 ==> !is_space_char(spec_normalize_slug(s).first())
            && !is_space_char(spec_normalize_slug(s).last()),
    ensures
        spec_normalize_slug(spec_normalize_slug(s)) == spec_normalize_slug(s),
{
    let n = spec_normalize_slug(s);
    if n.len() == 0 {
        lemma_first_ix_is(n, CharClass::NonSpace, 0);
        assert(spec_trim_start_by(n, CharClass::NonSpace) =~= n);
        lemma_last_ix_end_is(n, CharClass::NonSpace, 0);
        assert(spec_trim(n) =~= n);
        lemma_first_ix_is(n, CharClass::NonSlash, 0);
        assert(spec_trim_start_by(n, CharClass::NonSlash) =~= n);
        lemma_last_ix_end_is(n, CharClass::NonSlash, 0);
        assert(spec_normalize_slug(n) =~= n);
    } else {
        // the ends of n are neither whitespace (by hypothesis) nor slashes (by
        // construction), so every trimming stage leaves n whole
        lemma_normalize_ends_not_slash(s);
        lemma_first_ix_is(n, CharClass::NonSpace, 0);
        assert(spec_trim_start_by(n, CharClass::NonSpace) =~= n);
        lemma_last_ix_end_is(n, CharClass::NonSpace, n.len() as int);
        assert(spec_trim(n) =~= n);
        lemma_first_ix_is(n, CharClass::NonSlash, 0);
        assert(spec_trim_start_by(n, CharClass::NonSlash) =~= n);
        lemma_last_ix_end_is(n, CharClass::NonSlash, n.len() as int);
        assert(spec_normalize_slug(n) =~= n);
    }
}

/// A sequence with neither whitespace nor slashes anywhere is already normal.
pub proof fn lemma_normalize_identity(s: Seq<char>)
    requires
        forall|k: int| 0 <= k < s.len() ==> !is_space_char(s[k]) && s[k] != '/',
    ensures
        spec_normalize_slug(s) == s,
{
    lemma_first_ix_is(s, CharClass::NonSpace, 0);
    assert(spec_trim_start_by(s, CharClass::NonSpace) =~= s);
    lemma_last_ix_end_is(s, CharClass::NonSpace, s.len() as int);
    assert(spec_trim(s) =~= s);
    lemma_first_ix_is(s, CharClass::NonSlash, 0);
    assert(spec_trim_start_by(s, CharClass::NonSlash) =~= s);
    lemma_last_ix_end_is(s, CharClass::NonSlash, s.len() as int);
    assert(spec_normalize_slug(s) =~= s);
}

/// A nonempty normalized slug never starts or ends with a slash.
pub proof fn lemma_normalize_ends_not_slash(s: Seq<char>)
    ensures
        spec_normalize_slug(s).len() > 0 ==> spec_normalize_slug(s).first() != '/'
            && spec_normalize_slug(s).last() != '/',
{
    let t2 = spec_trim(s);
    lemma_first_ix_props(t2, CharClass::NonSlash);
    let t3 = spec_trim_start_by(t2, CharClass::NonSlash);
    lemma_last_ix_end_props(t3, CharClass::NonSlash);
    let t4 = spec_trim_end_by(t3, CharClass::NonSlash);
    if t4.len() > 0 {
        assert(t4.last() == t3[last_ix_end(t3, CharClass::NonSlash) - 1]);
        assert(t4.first() == t3.first());
        assert(t3.first() == t2[first_ix(t2, CharClass::NonSlash) as int]);
    }
}

/// The repository-relative markdown file behind each known slug; `None` for
/// every slug outside the closed set.
pub open spec fn spec_markdown_path(n: Seq<char>) -> Option<Seq<char>> {
    if n.len() == 0 {
        Some("docs/index.md"@)
    } else if n == "guides"@ {
        Some("docs/guides/index.md"@)
    } else if n == "guides/getting-started"@ {
        Some("docs/guides/getting-started.md"@)
    } else if n == "guides/local-manga"@ {
        Some("docs/guides/local-manga.md"@)
    } else if n == "guides/local-anime"@ {
        Some("docs/guides/local-anime.md"@)
    } else if n == "guides/novels"@ {
        Some("docs/guides/novels.md"@)
    } else if n == "guides/troubleshooting"@ {
        Some("docs/guides/troubleshooting.md"@)
    } else if n == "faq"@ {
        Some("docs/faq/index.md"@)
    } else if n == "faq/general"@ {
        Some("docs/faq/general.md"@)
    } else if n == "faq/local-files"@ {
        Some("docs/faq/local-files.md"@)
    } else if n == "404"@ {
        Some("docs/404.md"@)
    } else {
        None
    }
}

/// The markdown file a route fragment names, normalizing it first.
pub fn markdown_path_for_slug(slug: &str) -> (r: Option<&'static str>)
    ensures
        view_opt(r) == spec_markdown_path(spec_normalize_slug(slug@)),
{
    let normalized = normalize_slug(slug);
    if normalized.unicode_len() == 0 {
        Some("docs/index.md")
    } else if str_eq(normalized, "guides") {
        Some("docs/guides/index.md")
    } else if str_eq(normalized, "guides/getting-started") {
        Some("docs/guides/getting-started.md")
    } else if str_eq(normalized, "guides/local-manga") {
        Some("docs/guides/local-manga.md")
    } else if str_eq(normalized, "guides/local-anime") {
        Some("docs/guides/local-anime.md")
    } else if str_eq(normalized, "guides/novels") {
        Some("docs/guides/novels.md")
    } else if str_eq(normalized, "guides/troubleshooting") {
        Some("docs/guides/troubleshooting.md")
    } else if str_eq(normalized, "faq") {
        Some("docs/faq/index.md")
    } else if str_eq(normalized, "faq/general") {
        Some("docs/faq/general.md")
    } else if str_eq(normalized, "faq/local-files") {
        Some("docs/faq/local-files.md")
    } else if str_eq(normalized, "404") {
        Some("docs/404.md")
    } else {
        None
    }
}

/// The absolute docs link for a slug: the home path for the empty slug, the
/// normalized slug under the docs prefix otherwise.
pub open spec fn spec_docs_path(slug: Seq<char>) -> Seq<char> {
    if spec_normalize_slug(slug).len() == 0 {
        "/docs"@
    } else {
        "/docs/"@ + spec_normalize_slug(slug)
    }
}

/// The absolute link under which a slug's document is served.
pub fn docs_path_for_slug(slug: &str) -> (r: String)
    ensures
        r@ == spec_docs_path(slug@),
{
    let normalized = normalize_slug(slug);
    let mut out = String::new();
    if normalized.unicode_len() == 0 {
        out.append("/docs");
        proof {
            assert(out@ =~= "/docs"@);
        }
    } else {
        out.append("/docs/");
        out.append(normalized);
        proof {
            assert(out@ =~= "/docs/"@ + spec_normalize_slug(slug@));
        }
    }
    out
}

} // verus!
