use vstd::prelude::*;
use crate::errors::GrepLiteError;

verus! {

/// Whether the regex engine accepts `pattern`: exactly when
/// `regex::Regex::new` on that text returns `Ok`. Compilation is a function
/// of the pattern text alone.
pub uninterp spec fn pattern_valid(pattern: Seq<char>) -> bool;

/// Whether the regex compiled from `pattern` finds a match anywhere in
/// `line`: exactly what `regex::Regex::is_match` returns for that pattern
/// and that haystack. The answer is a function of the two texts alone.
pub uninterp spec fn regex_matches(pattern: Seq<char>, line: Seq<char>) -> bool;

#[verifier::external_type_specification]
#[verifier::external_body]
pub struct ExRegex(regex::Regex);

#[verifier::external_type_specification]
#[verifier::external_body]
pub struct ExRegexError(regex::Error);

/// A compiled pattern, ready to test lines. The `re` field always holds the
/// compilation of the `pattern` field: the only constructor compiles one
/// from the other, and neither field is ever changed.
pub struct Matcher {
    re: regex::Regex,
    pattern: String,
}

impl View for Matcher {
    type V = Seq<char>;

    closed spec fn view(&self) -> Seq<char> {
        self.pattern@
    }
}

/// Relies on `regex::Regex::new`: it returns `Ok` exactly on the patterns
/// the engine accepts (valid syntax, within the default size limit), which
/// depends on the pattern text alone.
#[verifier::external_body]
fn compile_pattern(pattern: String) -> (r: Result<Matcher, regex::Error>)
    ensures
        r is Ok <==> pattern_valid(pattern@),
        r matches Ok(m) ==> m@ == pattern@,
{
    match regex::Regex::new(&pattern) {
        Ok(re) => Ok(Matcher { re, pattern }),
        Err(e) => Err(e),
    }
}

/// Relies on `regex::Regex::is_match`: whether the compiled pattern matches
/// anywhere in the haystack, a function of the pattern and haystack texts
/// alone. The matcher's regex is the compilation of its pattern field.
#[verifier::external_body]
fn pattern_is_match(m: &Matcher, line: &String) -> (r: bool)
    ensures
        r == regex_matches(m@, line@),
{
    m.re.is_match(line)
}

/// Relies on the `Display` impl of `regex::Error` for the engine's
/// diagnostic text.
#[verifier::external_body]
fn compile_error_text(e: &regex::Error) -> (r: String) {
    e.to_string()
}

impl Matcher {
    /// Compile `pattern` once. Returns the matcher exactly when the engine
    /// accepts the pattern; otherwise a `Regex` error carrying the engine's
    /// diagnostic, and no other kind of error.
    pub fn new(pattern: String) -> (r: Result<Matcher, GrepLiteError>)
        ensures
            r is Ok <==> pattern_valid(pattern@),
            r matches Ok(m) ==> m@ == pattern@,
            r matches Err(e) ==> e is Regex,
    {
        match compile_pattern(pattern) {
            Ok(m) => Ok(m),
            Err(e) => Err(GrepLiteError::Regex(compile_error_text(&e))),
        }
    }

    /// Whether this matcher's pattern matches anywhere in `line`.
    pub fn is_match(&self, line: &String) -> (r: bool)
        ensures
            r == regex_matches(self@, line@),
    {
        pattern_is_match(self, line)
    }

    /// The pattern text this matcher was compiled from.
    pub fn pattern(&self) -> (r: &String)
        ensures
            r@ == self@,
    {
        &self.pattern
    }
}

} // verus!
