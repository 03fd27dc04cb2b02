//! Small text transformations the operations rely on: whitespace
//! trimming, path-separator sanitisation, Markdown rendering and fresh
//! temporary names.

use vstd::prelude::*;

verus! {

/// A character with the Unicode `White_Space` property: what trimming
/// removes.
pub open spec fn is_white_space(c: char) -> bool {
    c == ' ' || c == '\t' || c == '\n' || c == '\r' || c == '\u{b}' || c == '\u{c}' || c == '\u{85}'
        || c == '\u{a0}' || c == '\u{1680}' || c == '\u{2000}' || c == '\u{2001}' || c == '\u{2002}'
        || c == '\u{2003}' || c == '\u{2004}' || c == '\u{2005}' || c == '\u{2006}' || c == '\u{2007}'
        || c == '\u{2008}' || c == '\u{2009}' || c == '\u{200a}' || c == '\u{2028}' || c == '\u{2029}'
        || c == '\u{202f}' || c == '\u{205f}' || c == '\u{3000}'
}

/// A text without its leading whitespace.
pub open spec fn trim_start_spec(s: Seq<char>) -> Seq<char>
    decreases s.len(),
{
    if s.len() > 0 && is_white_space(s.first()) {
        trim_start_spec(s.drop_first())
    } else {
        s
    }
}

/// A text without its trailing whitespace.
pub open spec fn trim_end_spec(s: Seq<char>) -> Seq<char>
    decreases s.len(),
{
    if s.len() > 0 && is_white_space(s.last()) {
        trim_end_spec(s.drop_last())
    } else {
        s
    }
}

/// A text without its leading and trailing whitespace.
pub open spec fn trim_spec(s: Seq<char>) -> Seq<char> {
    trim_end_spec(trim_start_spec(s))
}

/// Relies on `str::trim`: it removes exactly the leading and trailing
/// characters with the Unicode `White_Space` property.
#[verifier::external_body]
pub fn trim(s: &str) -> (r: String)
    ensures
        r@ == trim_spec(s@),
{
    s.trim().to_owned()
}

/// A text with every occurrence of one character replaced by another.
pub open spec fn replace_char_spec(s: Seq<char>, from: char, to: char) -> Seq<char> {
    s.map_values(
        |c: char|
            if c == from {
                to
            } else {
                c
            },
    )
}

/// Relies on `str::replace` with a single-character pattern: every
/// occurrence of the pattern is replaced, everything else is kept.
#[verifier::external_body]
pub fn replace_char(s: &str, from: char, to: char) -> (r: String)
    ensures
        r@ == replace_char_spec(s@, from, to),
{
    s.replace(from, to.to_string().as_str())
}

/// The HTML page a Markdown text renders to, with the table extension
/// switched on and bare-URL autolinking off; it depends on the text alone.
pub uninterp spec fn html_of(md: Seq<char>) -> Seq<char>;

/// Relies on `comrak::markdown_to_html`, with the table extension enabled
/// and autolinking disabled: the rendered page is a function of the text
/// alone.
#[verifier::external_body]
pub fn render_markdown(md: &str) -> (r: String)
    ensures
        r@ == html_of(md@),
{
    let mut options = comrak::Options::default();
    options.extension.autolink = false;
    options.extension.table = true;
    comrak::markdown_to_html(md, &options)
}

/// Relies on `uuid::Uuid::new_v4` and its hyphenated text form: a fresh
/// random identifier of 36 characters; nothing more is promised of it,
/// since the value is drawn at random.
#[verifier::external_body]
pub fn random_name() -> (r: String)
    ensures
        r@.len() == 36,
{
    uuid::Uuid::new_v4().to_string()
}

} // verus!
