use vstd::prelude::*;
use vstd::string::*;

verus! {

/// Character classes that the scanning and trimming routines look for.
#[derive(Clone, Copy, Debug)]
pub enum CharClass {
    /// A character that is not whitespace.
    NonSpace,
    /// A character that is not a forward slash.
    NonSlash,
    /// A line break.
    Newline,
    /// A key/value separator.
    Colon,
}

/// Whitespace as the trimming routines understand it: the Unicode
/// White_Space characters, the class `str::trim` removes.
pub open spec fn is_space_char(c: char) -> bool {
    ||| c == ' '
    ||| c == '\t'
    ||| c == '\n'
    ||| c == '\u{b}'
    ||| c == '\u{c}'
    ||| c == '\r'
    ||| c == '\u{85}'
    ||| c == '\u{a0}'
    ||| c == '\u{1680}'
    ||| c == '\u{2000}'
    ||| c == '\u{2001}'
    ||| c == '\u{2002}'
    ||| c == '\u{2003}'
    ||| c == '\u{2004}'
    ||| c == '\u{2005}'
    ||| c == '\u{2006}'
    ||| c == '\u{2007}'
    ||| c == '\u{2008}'
    ||| c == '\u{2009}'
    ||| c == '\u{200a}'
    ||| c == '\u{2028}'
    ||| c == '\u{2029}'
    ||| c == '\u{202f}'
    ||| c == '\u{205f}'
    ||| c == '\u{3000}'
}

fn is_space(c: char) -> (r: bool)
    ensures
        r == is_space_char(c),
{
    c == ' ' || c == '\t' || c == '\n' || c == '\u{b}' || c == '\u{c}' || c == '\r' || c == '\u{85}'
        || c == '\u{a0}' || c == '\u{1680}' || c == '\u{2000}' || c == '\u{2001}' || c == '\u{2002}'
        || c == '\u{2003}' || c == '\u{2004}' || c == '\u{2005}' || c == '\u{2006}' || c
        == '\u{2007}' || c == '\u{2008}' || c == '\u{2009}' || c == '\u{200a}' || c == '\u{2028}'
        || c == '\u{2029}' || c == '\u{202f}' || c == '\u{205f}' || c == '\u{3000}'
}

/// Whether a character belongs to the given class.
pub open spec fn char_test(t: CharClass, c: char) -> bool {
    match t {
        CharClass::NonSpace => !is_space_char(c),
        CharClass::NonSlash => c != '/',
        CharClass::Newline => c == '\n',
        CharClass::Colon => c == ':',
    }
}

fn char_matches(t: CharClass, c: char) -> (r: bool)
    ensures
        r == char_test(t, c),
{
    match t {
        CharClass::NonSpace => !is_space(c),
        CharClass::NonSlash => c != '/',
        CharClass::Newline => c == '\n',
        CharClass::Colon => c == ':',
    }
}

/// Index of the first character of `s` in class `t`; `s.len()` if there is none.
pub open spec fn first_ix(s: Seq<char>, t: CharClass) -> nat
    decreases s.len(),
{
    if s.len() == 0 {
        0
    } else if char_test(t, s[0]) {
        0
    } else {
        1 + first_ix(s.drop_first(), t)
    }
}

/// One past the index of the last character of `s` in class `t`; `0` if there is none.
pub open spec fn last_ix_end(s: Seq<char>, t: CharClass) -> nat
    decreases s.len(),
{
    if s.len() == 0 {
        0
    } else if char_test(t, s.last()) {
        s.len()
    } else {
        last_ix_end(s.drop_last(), t)
    }
}

pub proof fn lemma_first_ix_props(s: Seq<char>, t: CharClass)
    ensures
        first_ix(s, t) <= s.len(),
        forall|k: int| 0 <= k < first_ix(s, t) ==> !char_test(t, s[k]),
        first_ix(s, t) < s.len() ==> char_test(t, s[first_ix(s, t) as int]),
    decreases s.len(),
{
    if s.len() == 0 {
    } else if char_test(t, s[0]) {
    } else {
        lemma_first_ix_props(s.drop_first(), t);
        assert forall|k: int| 0 <= k < first_ix(s, t) implies !char_test(t, s[k]) by {
            if k > 0 {
                assert(s.drop_first()[k - 1] == s[k]);
            }
        }
        if first_ix(s, t) < s.len() {
            assert(s.drop_first()[first_ix(s.drop_first(), t) as int] == s[first_ix(s, t) as int]);
        }
    }
}

pub proof fn lemma_first_ix_is(s: Seq<char>, t: CharClass, j: int)
    requires
        0 <= j <= s.len(),
        forall|k: int| 0 <= k < j ==> !char_test(t, s[k]),
        j < s.len() ==> char_test(t, s[j]),
    ensures
        first_ix(s, t) == j,
    decreases s.len(),
{
    if s.len() == 0 {
    } else if char_test(t, s[0]) {
        assert(j == 0);
    } else {
        assert(j >= 1);
        assert forall|k: int| 0 <= k < j - 1 implies !char_test(t, s.drop_first()[k]) by {
            assert(s.drop_first()[k] == s[k + 1]);
        }
        if j - 1 < s.drop_first().len() {
            assert(s.drop_first()[j - 1] == s[j]);
        }
        lemma_first_ix_is(s.drop_first(), t, j - 1);
    }
}

pub proof fn lemma_last_ix_end_props(s: Seq<char>, t: CharClass)
    ensures
        last_ix_end(s, t) <= s.len(),
        forall|k: int| last_ix_end(s, t) <= k < s.len() ==> !char_test(t, s[k]),
        last_ix_end(s, t) > 0 ==> char_test(t, s[last_ix_end(s, t) - 1]),
    decreases s.len(),
{
    if s.len() == 0 {
    } else if char_test(t, s.last()) {
    } else {
        lemma_last_ix_end_props(s.drop_last(), t);
        assert forall|k: int| last_ix_end(s, t) <= k < s.len() implies !char_test(t, s[k]) by {
            if k < s.len() - 1 {
                assert(s.drop_last()[k] == s[k]);
            }
        }
    }
}

pub proof fn lemma_last_ix_end_is(s: Seq<char>, t: CharClass, j: int)
    requires
        0 <= j <= s.len(),
        forall|k: int| j <= k < s.len() ==> !char_test(t, s[k]),
        j > 0 ==> char_test(t, s[j - 1]),
    ensures
        last_ix_end(s, t) == j,
    decreases s.len(),
{
    if s.len() == 0 {
    } else if char_test(t, s.last()) {
        assert(j == s.len());
    } else {
        assert(j < s.len());
        lemma_last_ix_end_is(s.drop_last(), t, j);
    }
}

/// First index at which a character of class `t` stands, or the length if none does.
pub fn find_first(s: &str, t: CharClass) -> (r: usize)
    ensures
        r == first_ix(s@, t),
{
    let n: usize = s.unicode_len();
    let mut i: usize = 0;
    while i < n
        invariant
            i <= n,
            n == s@.len(),
            forall|k: int| 0 <= k < i ==> !char_test(t, s@[k]),
        decreases n - i,
    {
        let c = s.get_char(i);
        if char_matches(t, c) {
            proof {
                lemma_first_ix_is(s@, t, i as int);
            }
            return i;
        }
        i = i + 1;
    }
    proof {
        lemma_first_ix_is(s@, t, n as int);
    }
    n
}

/// One past the last index at which a character of class `t` stands, or `0` if none does.
pub fn find_last_end(s: &str, t: CharClass) -> (r: usize)
    ensures
        r == last_ix_end(s@, t),
{
    let n: usize = s.unicode_len();
    let mut j: usize = n;
    while j > 0
        invariant
            j <= n,
            n == s@.len(),
            forall|k: int| j <= k < n ==> !char_test(t, s@[k]),
        decreases j,
    {
        let c = s.get_char(j - 1);
        if char_matches(t, c) {
            proof {
                lemma_last_ix_end_is(s@, t, j as int);
            }
            return j;
        }
        j = j - 1;
    }
    proof {
        lemma_last_ix_end_is(s@, t, 0);
    }
    0
}

/// `s` with its leading characters outside class `t` removed.
pub open spec fn spec_trim_start_by(s: Seq<char>, t: CharClass) -> Seq<char> {
    s.skip(first_ix(s, t) as int)
}

/// `s` with its trailing characters outside class `t` removed.
pub open spec fn spec_trim_end_by(s: Seq<char>, t: CharClass) -> Seq<char> {
    s.take(last_ix_end(s, t) as int)
}

/// `s` with leading and trailing whitespace removed.
pub open spec fn spec_trim(s: Seq<char>) -> Seq<char> {
    spec_trim_end_by(spec_trim_start_by(s, CharClass::NonSpace), CharClass::NonSpace)
}

pub fn trim_start_by<'a>(s: &'a str, t: CharClass) -> (r: &'a str)
    ensures
        r@ == spec_trim_start_by(s@, t),
{
    let n: usize = s.unicode_len();
    let i = find_first(s, t);
    proof {
        lemma_first_ix_props(s@, t);
    }
    let r = s.substring_char(i, n);
    proof {
        assert(r@ =~= spec_trim_start_by(s@, t));
    }
    r
}

pub fn trim_end_by<'a>(s: &'a str, t: CharClass) -> (r: &'a str)
    ensures
        r@ == spec_trim_end_by(s@, t),
{
    let j = find_last_end(s, t);
    proof {
        lemma_last_ix_end_props(s@, t);
    }
    let r = s.substring_char(0, j);
    proof {
        assert(r@ =~= spec_trim_end_by(s@, t));
    }
    r
}

/// Leading and trailing Unicode whitespace removed, as `str::trim` does.
pub fn trim<'a>(s: &'a str) -> (r: &'a str)
    ensures
        r@ == spec_trim(s@),
{
    trim_end_by(trim_start_by(s, CharClass::NonSpace), CharClass::NonSpace)
}

/// Character-for-character equality of two string slices.
pub fn str_eq(a: &str, b: &str) -> (r: bool)
    ensures
        r == (a@ == b@),
{
    let na: usize = a.unicode_len();
    let nb: usize = b.unicode_len();
    if na != nb {
        return false;
    }
    let mut i: usize = 0;
    while i < na
        invariant
            i <= na,
            na == a@.len(),
            na == b@.len(),
            forall|k: int| 0 <= k < i ==> a@[k] == b@[k],
        decreases na - i,
    {
        if a.get_char(i) != b.get_char(i) {
            return false;
        }
        i = i + 1;
    }
    proof {
        assert(a@ =~= b@);
    }
    true
}

/// The view of an optional string slice.
pub open spec fn view_opt(o: Option<&str>) -> Option<Seq<char>> {
    match o {
        Some(s) => Some(s@),
        None => None,
    }
}

/// How one character reads once escaped for HTML interpolation.
pub open spec fn spec_escape_char(c: char) -> Seq<char> {
    if c == '&' {
        "&amp;"@
    } else if c == '<' {
        "&lt;"@
    } else if c == '>' {
        "&gt;"@
    } else if c == '"' {
        "&quot;"@
    } else if c == '\'' {
        "&#39;"@
    } else {
        seq![c]
    }
}

/// `s` with every HTML-unsafe character replaced by its entity.
pub open spec fn spec_escape_html(s: Seq<char>) -> Seq<char>
    decreases s.len(),
{
    if s.len() == 0 {
        Seq::empty()
    } else {
        spec_escape_html(s.drop_last()) + spec_escape_char(s.last())
    }
}

/// Escapes the five HTML-unsafe characters of `value` so it can stand in markup.
pub fn escape_html(value: &str) -> (r: String)
    ensures
        r@ == spec_escape_html(value@),
{
    let n: usize = value.unicode_len();
    let mut out = String::new();
    proof {
        assert(out@ =~= spec_escape_html(value@.take(0)));
    }
    let mut i: usize = 0;
    while i < n
        invariant
            i <= n,
            n == value@.len(),
            out@ == spec_escape_html(value@.take(i as int)),
        decreases n - i,
    {
        let c = value.get_char(i);
        if c == '&' {
            out.append("&amp;");
        } else if c == '<' {
            out.append("&lt;");
        } else if c == '>' {
            out.append("&gt;");
        } else if c == '"' {
            out.append("&quot;");
        } else if c == '\'' {
            out.append("&#39;");
        } else {
            let piece = value.substring_char(i, i + 1);
            proof {
                assert(piece@ =~= seq![value@[i as int]]);
            }
            out.append(piece);
        }
        proof {
            assert(value@.take(i + 1).drop_last() =~= value@.take(i as int));
            assert(value@.take(i + 1).last() == value@[i as int]);
        }
        i = i + 1;
    }
    proof {
        assert(value@.take(n as int) =~= value@);
    }
    out
}

/// Law: the escaped form of any text holds no raw `<`, `>`, `"` or `'` character.
pub proof fn lemma_escape_html_no_raw_unsafe(s: Seq<char>)
    ensures
        forall|k: int| 0 <= k < spec_escape_html(s).len() ==> spec_escape_html(s)[k] != '<'
            && spec_escape_html(s)[k] != '>' && spec_escape_html(s)[k] != '"' && spec_escape_html(
            s,
        )[k] != '\'',
    decreases s.len(),
{
    if s.len() == 0 {
    } else {
        lemma_escape_html_no_raw_unsafe(s.drop_last());
        reveal_strlit("&amp;");
        reveal_strlit("&lt;");
        reveal_strlit("&gt;");
        reveal_strlit("&quot;");
        reveal_strlit("&#39;");
        let tail = spec_escape_char(s.last());
        assert forall|k: int| 0 <= k < tail.len() implies tail[k] != '<' && tail[k] != '>'
            && tail[k] != '"' && tail[k] != '\'' by {
            if s.last() == '&' || s.last() == '<' || s.last() == '>' || s.last() == '"' || s.last()
                == '\'' {
            } else {
                assert(tail[k] == s.last());
            }
        }
        assert forall|k: int| 0 <= k < spec_escape_html(s).len() implies spec_escape_html(s)[k]
            != '<' && spec_escape_html(s)[k] != '>' && spec_escape_html(s)[k] != '"'
            && spec_escape_html(s)[k] != '\'' by {
            if k < spec_escape_html(s.drop_last()).len() {
                assert(spec_escape_html(s)[k] == spec_escape_html(s.drop_last())[k]);
            } else {
                assert(spec_escape_html(s)[k] == tail[k - spec_escape_html(s.drop_last()).len()]);
            }
        }
    }
}

/// The decimal digit for a value below ten.
pub open spec fn spec_digit_char(d: int) -> char {
    if d == 0 {
        '0'
    } else if d == 1 {
        '1'
    } else if d == 2 {
        '2'
    } else if d == 3 {
        '3'
    } else if d == 4 {
        '4'
    } else if d == 5 {
        '5'
    } else if d == 6 {
        '6'
    } else if d == 7 {
        '7'
    } else if d == 8 {
        '8'
    } else {
        '9'
    }
}

/// The decimal notation of `n`, most significant digit first.
pub open spec fn spec_decimal(n: nat) -> Seq<char>
    decreases n,
{
    if n < 10 {
        seq![spec_digit_char(n as int)]
    } else {
        spec_decimal(n / 10) + seq![spec_digit_char((n % 10) as int)]
    }
}

fn digit_str(d: u64) -> (r: &'static str)
    requires
        d < 10,
    ensures
        r@ == seq![spec_digit_char(d as int)],
{
    let r: &'static str = if d == 0 {
        "0"
    } else if d == 1 {
        "1"
    } else if d == 2 {
        "2"
    } else if d == 3 {
        "3"
    } else if d == 4 {
        "4"
    } else if d == 5 {
        "5"
    } else if d == 6 {
        "6"
    } else if d == 7 {
        "7"
    } else if d == 8 {
        "8"
    } else {
        "9"
    };
    proof {
        reveal_strlit("0");
        reveal_strlit("1");
        reveal_strlit("2");
        reveal_strlit("3");
        reveal_strlit("4");
        reveal_strlit("5");
        reveal_strlit("6");
        reveal_strlit("7");
        reveal_strlit("8");
        reveal_strlit("9");
        assert(r@ =~= seq![spec_digit_char(d as int)]);
    }
    r
}

/// Writes `n` in decimal, as the version poll endpoint sends it.
pub fn u64_to_decimal(n: u64) -> (r: String)
    ensures
        r@ == spec_decimal(n as nat),
    decreases n,
{
    if n < 10 {
        let mut out = String::new();
        out.append(digit_str(n));
        proof {
            assert(out@ =~= spec_decimal(n as nat));
        }
        out
    } else {
        let mut out = u64_to_decimal(n / 10);
        out.append(digit_str(n % 10));
        out
    }
}

} // verus!
