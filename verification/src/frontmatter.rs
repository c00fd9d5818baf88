use vstd::prelude::*;
use vstd::string::*;

use crate::text::{
    trim, trim_start_by, find_first, str_eq, spec_trim, spec_trim_start_by, first_ix, view_opt,
    CharClass,
};
use crate::DEFAULT_TITLE;

verus! {

/// Metadata and body extracted from a document's raw text.
#[derive(Debug, Clone, Copy, PartialEq, Eq)]
pub struct ParsedDoc<'a> {
    pub title: &'a str,
    pub description: &'a str,
    pub body: &'a str,
}

/// The mathematical shape of a parsed document.
pub struct ParsedDocView {
    pub title: Seq<char>,
    pub description: Seq<char>,
    pub body: Seq<char>,
}

impl<'a> View for ParsedDoc<'a> {
    type V = ParsedDocView;

    open spec fn view(&self) -> ParsedDocView {
        ParsedDocView { title: self.title@, description: self.description@, body: self.body@ }
    }
}

/// Whether the text opens with a frontmatter delimiter line.
pub open spec fn has_open_delim(s: Seq<char>) -> bool {
    s.len() >= 4 && s[0] == '-' && s[1] == '-' && s[2] == '-' && s[3] == '\n'
}

/// Whether a closing frontmatter delimiter line stands at index `i`.
pub open spec fn delim_at(s: Seq<char>, i: int) -> bool {
    &&& 0 <= i
    &&& i + 5 <= s.len()
    &&& s[i] == '\n'
    &&& s[i + 1] == '-'
    &&& s[i + 2] == '-'
    &&& s[i + 3] == '-'
    &&& s[i + 4] == '\n'
}

/// Index of the first closing delimiter of `s`; `s.len()` if there is none.
pub open spec fn close_delim_ix(s: Seq<char>) -> nat
    decreases s.len(),
{
    if s.len() == 0 {
        0
    } else if delim_at(s, 0) {
        0
    } else {
        1 + close_delim_ix(s.drop_first())
    }
}

proof fn lemma_delim_at_shift(s: Seq<char>, i: int)
    requires
        1 <= i,
        s.len() >= 1,
    ensures
        delim_at(s, i) == delim_at(s.drop_first(), i - 1),
{
    if delim_at(s, i) {
        assert(s.drop_first()[i - 1] == s[i]);
        assert(s.drop_first()[i] == s[i + 1]);
        assert(s.drop_first()[i + 1] == s[i + 2]);
        assert(s.drop_first()[i + 2] == s[i + 3]);
        assert(s.drop_first()[i + 3] == s[i + 4]);
    }
    if delim_at(s.drop_first(), i - 1) {
        assert(s[i] == s.drop_first()[i - 1]);
        assert(s[i + 1] == s.drop_first()[i]);
        assert(s[i + 2] == s.drop_first()[i + 1]);
        assert(s[i + 3] == s.drop_first()[i + 2]);
        assert(s[i + 4] == s.drop_first()[i + 3]);
    }
}

pub proof fn lemma_close_delim_props(s: Seq<char>)
    ensures
        close_delim_ix(s) <= s.len(),
        forall|k: int| 0 <= k < close_delim_ix(s) ==> !delim_at(s, k),
        close_delim_ix(s) < s.len() ==> delim_at(s, close_delim_ix(s) as int),
    decreases s.len(),
{
    if s.len() == 0 {
    } else if delim_at(s, 0) {
    } else {
        lemma_close_delim_props(s.drop_first());
        assert forall|k: int| 0 <= k < close_delim_ix(s) implies !delim_at(s, k) by {
            if k > 0 {
                lemma_delim_at_shift(s, k);
            }
        }
        if close_delim_ix(s) < s.len() {
            lemma_delim_at_shift(s, close_delim_ix(s) as int);
        }
    }
}

pub proof fn lemma_close_delim_is(s: Seq<char>, j: int)
    requires
        0 <= j <= s.len(),
        forall|k: int| 0 <= k < j ==> !delim_at(s, k),
        j < s.len() ==> delim_at(s, j),
    ensures
        close_delim_ix(s) == j,
    decreases s.len(),
{
    if s.len() == 0 {
    } else if delim_at(s, 0) {
        assert(j == 0);
    } else {
        assert(j >= 1);
        assert forall|k: int| 0 <= k < j - 1 implies !delim_at(s.drop_first(), k) by {
            lemma_delim_at_shift(s, k + 1);
        }
        if j - 1 < s.drop_first().len() {
            lemma_delim_at_shift(s, j);
        }
        lemma_close_delim_is(s.drop_first(), j - 1);
    }
}

/// First index of a closing delimiter line, or the length of `s` when none occurs.
fn find_close_delim(s: &str) -> (r: usize)
    ensures
        r == close_delim_ix(s@),
{
    let n: usize = s.unicode_len();
    let mut i: usize = 0;
    while i < n
        invariant
            i <= n,
            n == s@.len(),
            forall|k: int| 0 <= k < i ==> !delim_at(s@, k),
        decreases n - i,
    {
        if n - i >= 5 && s.get_char(i) == '\n' && s.get_char(i + 1) == '-' && s.get_char(i + 2)
            == '-' && s.get_char(i + 3) == '-' && s.get_char(i + 4) == '\n' {
            proof {
                lemma_close_delim_is(s@, i as int);
            }
            return i;
        }
        i = i + 1;
    }
    proof {
        lemma_close_delim_is(s@, n as int);
    }
    n
}

/// One layer of matching wrapping quotes removed, if both ends carry the same quote.
pub open spec fn spec_trim_quotes(s: Seq<char>) -> Seq<char> {
    if s.len() >= 2 && s[0] == '"' && s[s.len() - 1] == '"' {
        s.subrange(1, s.len() - 1)
    } else if s.len() >= 2 && s[0] == '\'' && s[s.len() - 1] == '\'' {
        s.subrange(1, s.len() - 1)
    } else {
        s
    }
}

/// Strips one layer of matching wrapping quotes from a frontmatter value.
pub fn trim_wrapping_quotes<'a>(value: &'a str) -> (r: &'a str)
    ensures
        r@ == spec_trim_quotes(value@),
{
    let n: usize = value.unicode_len();
    if n >= 2 && value.get_char(0) == '"' && value.get_char(n - 1) == '"' {
        value.substring_char(1, n - 1)
    } else if n >= 2 && value.get_char(0) == '\'' && value.get_char(n - 1) == '\'' {
        value.substring_char(1, n - 1)
    } else {
        value
    }
}

/// Law: quote stripping removes exactly one matching layer and touches nothing else.
pub proof fn lemma_trim_quotes_one_layer(s: Seq<char>)
    ensures
        (s.len() >= 2 && ((s[0] == '"' && s[s.len() - 1] == '"') || (s[0] == '\'' && s[s.len() - 1]
            == '\''))) ==> spec_trim_quotes(s) == s.subrange(1, s.len() - 1),
        !(s.len() >= 2 && ((s[0] == '"' && s[s.len() - 1] == '"') || (s[0] == '\'' && s[s.len() - 1]
            == '\''))) ==> spec_trim_quotes(s) == s,
{
}

/// How one frontmatter line changes the title and description seen so far.
pub open spec fn spec_apply_line(
    line: Seq<char>,
    t: Option<Seq<char>>,
    d: Option<Seq<char>>,
) -> (Option<Seq<char>>, Option<Seq<char>>) {
    let trimmed = spec_trim(line);
    if trimmed.len() == 0 || trimmed[0] == '#' {
        (t, d)
    } else {
        let ci = first_ix(trimmed, CharClass::Colon);
        if ci == trimmed.len() {
            (t, d)
        } else {
            let key = spec_trim(trimmed.take(ci as int));
            let value = spec_trim_quotes(spec_trim(trimmed.skip(ci + 1 as int)));
            if key == "title"@ {
                (Some(value), d)
            } else if key == "description"@ {
                (t, Some(value))
            } else {
                (t, d)
            }
        }
    }
}

/// The title and description after reading every line of a frontmatter block.
pub open spec fn spec_scan_fields(
    s: Seq<char>,
    t: Option<Seq<char>>,
    d: Option<Seq<char>>,
) -> (Option<Seq<char>>, Option<Seq<char>>)
    decreases s.len(),
{
    if s.len() == 0 {
        (t, d)
    } else {
        let j = first_ix(s, CharClass::Newline);
        if j < s.len() {
            let applied = spec_apply_line(s.take(j as int), t, d);
            spec_scan_fields(s.skip(j + 1 as int), applied.0, applied.1)
        } else {
            spec_apply_line(s, t, d)
        }
    }
}

fn apply_line<'a>(line: &'a str, t: Option<&'a str>, d: Option<&'a str>) -> (r: (
    Option<&'a str>,
    Option<&'a str>,
))
    ensures
        view_opt(r.0) == spec_apply_line(line@, view_opt(t), view_opt(d)).0,
        view_opt(r.1) == spec_apply_line(line@, view_opt(t), view_opt(d)).1,
{
    let trimmed = trim(line);
    let tn: usize = trimmed.unicode_len();
    if tn == 0 {
        return (t, d);
    }
    if trimmed.get_char(0) == '#' {
        return (t, d);
    }
    let ci = find_first(trimmed, CharClass::Colon);
    if ci == tn {
        return (t, d);
    }
    proof {
        crate::text::lemma_first_ix_props(trimmed@, CharClass::Colon);
    }
    let key = trim(trimmed.substring_char(0, ci));
    let raw_value = trim(trimmed.substring_char(ci + 1, tn));
    let value = trim_wrapping_quotes(raw_value);
    if str_eq(key, "title") {
        (Some(value), d)
    } else if str_eq(key, "description") {
        (t, Some(value))
    } else {
        (t, d)
    }
}

fn scan_fields<'a>(s: &'a str) -> (r: (Option<&'a str>, Option<&'a str>))
    ensures
        view_opt(r.0) == spec_scan_fields(s@, None, None).0,
        view_opt(r.1) == spec_scan_fields(s@, None, None).1,
{
    let mut rest: &'a str = s;
    let mut title: Option<&'a str> = None;
    let mut description: Option<&'a str> = None;
    let mut rn: usize = rest.unicode_len();
    while rn > 0
        invariant
            rn == rest@.len(),
            spec_scan_fields(s@, None, None) == spec_scan_fields(
                rest@,
                view_opt(title),
                view_opt(description),
            ),
        decreases rn,
    {
        let j = find_first(rest, CharClass::Newline);
        proof {
            crate::text::lemma_first_ix_props(rest@, CharClass::Newline);
        }
        if j < rn {
            let line = rest.substring_char(0, j);
            proof {
                assert(line@ =~= rest@.take(j as int));
            }
            let applied = apply_line(line, title, description);
            title = applied.0;
            description = applied.1;
            let tail = rest.substring_char(j + 1, rn);
            proof {
                assert(tail@ =~= rest@.skip(j + 1));
            }
            rest = tail;
            rn = rn - (j + 1);
        } else {
            let applied = apply_line(rest, title, description);
            title = applied.0;
            description = applied.1;
            let tail = rest.substring_char(rn, rn);
            proof {
                assert(tail@ =~= Seq::<char>::empty());
            }
            rest = tail;
            rn = 0;
        }
    }
    (title, description)
}

/// The parsed form of a document's raw text: frontmatter fields when a complete
/// leading block is present, the stated defaults otherwise.
pub open spec fn spec_parse_doc(s: Seq<char>) -> ParsedDocView {
    if !has_open_delim(s) {
        ParsedDocView { title: DEFAULT_TITLE@, description: Seq::empty(), body: spec_trim(s) }
    } else {
        let rest = s.skip(4);
        let ci = close_delim_ix(rest);
        if ci == rest.len() {
            ParsedDocView { title: DEFAULT_TITLE@, description: Seq::empty(), body: spec_trim(s) }
        } else {
            let fields = spec_scan_fields(rest.take(ci as int), None, None);
            ParsedDocView {
                title: match fields.0 {
                    Some(t) => t,
                    None => DEFAULT_TITLE@,
                },
                description: match fields.1 {
                    Some(d) => d,
                    None => Seq::empty(),
                },
                body: spec_trim_start_by(rest.skip(ci + 5 as int), CharClass::NonSpace),
            }
        }
    }
}

/// Splits a document into frontmatter metadata and body; never fails.
pub fn parse_doc<'a>(source: &'a str) -> (r: ParsedDoc<'a>)
    ensures
        r@ == spec_parse_doc(source@),
{
    let n: usize = source.unicode_len();
    let fallback_body = trim(source);
    proof {
        reveal_strlit("");
        assert(""@ =~= Seq::<char>::empty());
    }
    if !(n >= 4 && source.get_char(0) == '-' && source.get_char(1) == '-' && source.get_char(2)
        == '-' && source.get_char(3) == '\n') {
        return ParsedDoc { title: DEFAULT_TITLE, description: "", body: fallback_body };
    }
    let rest = source.substring_char(4, n);
    proof {
        assert(rest@ =~= source@.skip(4));
    }
    let rn: usize = rest.unicode_len();
    let ci = find_close_delim(rest);
    proof {
        lemma_close_delim_props(rest@);
    }
    if ci == rn {
        return ParsedDoc { title: DEFAULT_TITLE, description: "", body: fallback_body };
    }
    let fm = rest.substring_char(0, ci);
    proof {
        assert(fm@ =~= rest@.take(ci as int));
    }
    let fields = scan_fields(fm);
    let body = trim_start_by(rest.substring_char(ci + 5, rn), CharClass::NonSpace);
    proof {
        assert(rest@.subrange(ci + 5, rn as int) =~= rest@.skip(ci + 5));
    }
    let title = match fields.0 {
        Some(t) => t,
        None => DEFAULT_TITLE,
    };
    let description = match fields.1 {
        Some(d) => d,
        None => "",
    };
    ParsedDoc { title, description, body }
}

/// Law: text without a complete leading frontmatter block parses to the default
/// title, an empty description and the trimmed text itself as body.
pub proof fn lemma_parse_doc_fallback(s: Seq<char>)
    requires
        !has_open_delim(s) || close_delim_ix(s.skip(4)) == s.skip(4).len(),
    ensures
        spec_parse_doc(s).title == DEFAULT_TITLE@,
        spec_parse_doc(s).description == Seq::<char>::empty(),
        spec_parse_doc(s).body == spec_trim(s),
{
}

} // verus!
