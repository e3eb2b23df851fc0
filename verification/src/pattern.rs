use vstd::prelude::*;

verus! {

/// Whether `pattern` is valid regular-expression syntax, i.e. whether
/// compiling it succeeds.
pub uninterp spec fn pattern_valid(pattern: Seq<char>) -> bool;

/// Whether the compiled form of `pattern` matches somewhere inside `text`
/// (a substring match, not anchored to the whole text).
pub uninterp spec fn pattern_matches(pattern: Seq<char>, text: Seq<char>) -> bool;

/// The text with the leftmost match of the compiled form of `pattern`
/// replaced by `replacement`, capture-group references expanded.
pub uninterp spec fn replaced(pattern: Seq<char>, text: Seq<char>, replacement: Seq<char>) -> Seq<char>;

#[verifier::external_type_specification]
#[verifier::external_body]
pub struct ExRegex(regex::Regex);

/// A compiled regular expression together with the pattern string it was
/// compiled from.  The view of a `Pattern` is that pattern string; the
/// private fields keep the two in step, since only `compile` builds one.
pub struct Pattern {
    re: regex::Regex,
    source: String,
}

impl View for Pattern {
    type V = Seq<char>;

    closed spec fn view(&self) -> Seq<char> {
        self.source@
    }
}

impl Pattern {
    /// Compiles `pattern`, succeeding exactly when it is valid
    /// regular-expression syntax; on failure the engine's diagnostic comes
    /// back as a plain string.
    pub fn compile(pattern: &str) -> (r: Result<Pattern, String>)
        ensures
            r is Ok <==> pattern_valid(pattern@),
            r matches Ok(p) ==> p@ == pattern@,
    {
        regex_compile(pattern)
    }

    /// The pattern string this `Pattern` was compiled from.
    pub fn source_str(&self) -> (s: &str)
        ensures
            s@ == self@,
    {
        self.source.as_str()
    }
}

/// Relies on `regex::Regex::new`: compilation is a function of the pattern
/// string alone and succeeds exactly for valid pattern syntax.
#[verifier::external_body]
fn regex_compile(pattern: &str) -> (r: Result<Pattern, String>)
    ensures
        r is Ok <==> pattern_valid(pattern@),
        r matches Ok(p) ==> p@ == pattern@,
{
    match regex::Regex::new(pattern) {
        Ok(re) => Ok(Pattern { re, source: pattern.to_owned() }),
        Err(e) => Err(format!("{}", e)),
    }
}

/// Relies on `regex::Regex::is_match`: true exactly when the compiled
/// pattern matches anywhere in `text`, a function of the pattern and the
/// text alone.
#[verifier::external_body]
pub(crate) fn regex_is_match(pattern: &Pattern, text: &str) -> (r: bool)
    ensures
        r == pattern_matches(pattern@, text@),
{
    pattern.re.is_match(text)
}

/// Relies on `regex::Regex::replace`: rewrites the leftmost match of the
/// compiled pattern in `text` with the replacement template, expanding
/// capture-group references; with no match the text comes back unchanged.
#[verifier::external_body]
pub(crate) fn regex_replace(pattern: &Pattern, text: &str, replacement: &str) -> (r: String)
    ensures
        r@ == replaced(pattern@, text@, replacement@),
        !pattern_matches(pattern@, text@) ==> r@ == text@,
{
    pattern.re.replace(text, replacement).into_owned()
}

} // verus!
