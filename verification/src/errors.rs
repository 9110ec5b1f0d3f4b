use vstd::prelude::*;

verus! {

/// Why a run failed: the input could not be read, or the pattern did not
/// compile. Each variant carries the diagnostic text of the underlying
/// cause, so a caller can tell the two apart and report them.
#[derive(Debug)]
pub enum GrepLiteError {
    Io(String),
    Regex(String),
}

impl GrepLiteError {
    /// The diagnostic text carried by either variant.
    pub open spec fn text_spec(&self) -> Seq<char> {
        match self {
            GrepLiteError::Io(s) => s@,
            GrepLiteError::Regex(s) => s@,
        }
    }

    /// True exactly on the input/output variant.
    pub fn is_io(&self) -> (r: bool)
        ensures
            r == (self is Io),
    {
        match self {
            GrepLiteError::Io(_) => true,
            GrepLiteError::Regex(_) => false,
        }
    }

    /// True exactly on the pattern-compilation variant.
    pub fn is_regex(&self) -> (r: bool)
        ensures
            r == (self is Regex),
    {
        match self {
            GrepLiteError::Io(_) => false,
            GrepLiteError::Regex(_) => true,
        }
    }

    /// The diagnostic text of the underlying cause.
    pub fn text(&self) -> (r: &String)
        ensures
            r@ == self.text_spec(),
    {
        match self {
            GrepLiteError::Io(s) => s,
            GrepLiteError::Regex(s) => s,
        }
    }
}

} // verus!
