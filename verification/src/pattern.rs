//! Device-name patterns, matched with the `regex` crate.
use vstd::prelude::*;

verus! {

#[verifier::external_type_specification]
#[verifier::external_body]
pub struct ExRegex(regex::Regex);

/// `regex::Regex::new` accepts `pattern`: valid syntax, and a compiled
/// program within the default size limit.
pub uninterp spec fn regex_compiles(pattern: Seq<char>) -> bool;

/// The regex compiled from `pattern` matches somewhere in `haystack`.
pub uninterp spec fn regex_is_match(pattern: Seq<char>, haystack: Seq<char>) -> bool;

/// A compiled pattern together with the source it was compiled from.
pub struct NamePattern {
    source: Ghost<Seq<char>>,
    compiled: regex::Regex,
}

impl View for NamePattern {
    type V = Seq<char>;

    closed spec fn view(&self) -> Seq<char> {
        self.source@
    }
}

impl NamePattern {
    /// Compiles `pattern` with `regex::Regex::new`. Claimed of it: it
    /// succeeds exactly on the patterns `regex_compiles` names, and the
    /// result remembers its source.
    #[verifier::external_body]
    pub(crate) fn compile(pattern: &str) -> (r: Result<NamePattern, regex::Error>)
        ensures
            r is Ok <==> regex_compiles(pattern@),
            r matches Ok(p) ==> p@ == pattern@,
    {
        match regex::Regex::new(pattern) {
            Ok(compiled) => Ok(NamePattern { source: Ghost(pattern@), compiled }),
            Err(e) => Err(e),
        }
    }

    /// Calls `regex::Regex::is_match`. Claimed of it: the answer is
    /// `regex_is_match` of the pattern's source and the haystack.
    #[verifier::external_body]
    pub(crate) fn is_match(&self, haystack: &str) -> (r: bool)
        ensures
            r == regex_is_match(self@, haystack@),
    {
        self.compiled.is_match(haystack)
    }

    /// Does a device named `name` match? A device without a name never
    /// matches.
    pub fn matches_name(&self, name: Option<&str>) -> (r: bool)
        ensures
            r == (name matches Some(n) && regex_is_match(self@, n@)),
    {
        match name {
            Some(n) => self.is_match(n),
            None => false,
        }
    }
}

} // verus!
