//! Compiled name-matching patterns, backed by the `regex` crate.
//!
//! The rest of the library reasons about pattern matching through two
//! uninterpreted functions: `regex_compiles`, which says whether a pattern
//! text is a valid regular expression, and `regex_match`, which says whether
//! the expression compiled from a pattern text matches somewhere in a given
//! text. Both are functions of the texts alone.

use vstd::prelude::*;

verus! {

/// Whether `regex::Regex::new` accepts this pattern text. Compilation of a
/// given pattern text always succeeds or always fails, so this is a function
/// of the pattern alone.
pub uninterp spec fn regex_compiles(pat: Seq<char>) -> bool;

/// Whether the regular expression compiled from `pat` matches anywhere in
/// `text` (unanchored search). Matching is a pure function of the pattern
/// text and the searched text. Meaningful only when `regex_compiles(pat)`.
pub uninterp spec fn regex_match(pat: Seq<char>, text: Seq<char>) -> bool;

#[verifier::external_type_specification]
#[verifier::external_body]
pub struct ExRegex(regex::Regex);

/// A name-matching pattern: the pattern text together with its compiled
/// form. The fields are private and `compile` is the only constructor, so
/// `re` is always the regular expression compiled from `source`.
pub struct NamePattern {
    source: String,
    re: regex::Regex,
}

impl NamePattern {
    /// The pattern text this pattern was compiled from.
    pub closed spec fn source(&self) -> Seq<char> {
        self.source@
    }

    /// Relies on `regex::Regex::new`: it returns `Ok` exactly when the
    /// pattern text is a valid regular expression (within the default size
    /// limit), deciding by the pattern text alone.
    #[verifier::external_body]
    pub(crate) fn compile(pat: &str) -> (r: Option<NamePattern>)
        ensures
            r is Some <==> regex_compiles(pat@),
            r is Some ==> r.unwrap().source() == pat@,
    {
        match regex::Regex::new(pat) {
            Ok(re) => Some(NamePattern { source: pat.to_owned(), re }),
            Err(_) => None,
        }
    }

    /// Relies on `regex::Regex::is_match`: true exactly when the compiled
    /// expression matches somewhere in `text`, deciding by the pattern text
    /// and the searched text alone. `self.re` is the compiled form of
    /// `self.source`, which `compile` establishes.
    #[verifier::external_body]
    pub(crate) fn is_match(&self, text: &str) -> (r: bool)
        ensures
            r == regex_match(self.source(), text@),
    {
        self.re.is_match(text)
    }
}

} // verus!
