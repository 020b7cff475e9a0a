//! Compiled regular expressions, as far as the cache needs them: compile a
//! pattern once, then ask whether a text matches.
//!
//! What a pattern means is left to the `regex` crate. Contracts speak of it
//! through three names: [`pattern_compiles`], whether a pattern compiles,
//! [`pattern_language`], the texts that a pattern matches, and
//! [`regex_language`], the texts that a compiled regex matches.

use regex::Regex;
use vstd::prelude::*;

verus! {

/// `regex::Regex`, taken as it is. Nothing inside it is visible to proofs.
#[verifier::external_type_specification]
#[verifier::external_body]
pub struct ExRegex(regex::Regex);

/// What a compiled regex holds: the texts in which it finds a match.
pub uninterp spec fn regex_language(re: Regex) -> Set<Seq<char>>;

/// The texts in which a regex that `Regex::new` compiles from `pattern`
/// finds a match.
pub uninterp spec fn pattern_language(pattern: Seq<char>) -> Set<Seq<char>>;

/// Whether `Regex::new` compiles `pattern`. It does unless the pattern is
/// not valid, or the regex would be larger than the size limit that the
/// crate sets by default.
pub uninterp spec fn pattern_compiles(pattern: Seq<char>) -> bool;

/// `Regex::new`, with the error dropped. Trusted: whether a regex comes
/// back depends on the pattern alone, and a regex that comes back matches
/// exactly the texts that its pattern denotes.
#[verifier::external_body]
pub(crate) fn compile(pattern: &str) -> (r: Option<Regex>)
    ensures
        r is Some <==> pattern_compiles(pattern@),
        r matches Some(re) ==> regex_language(re) == pattern_language(pattern@),
{
    Regex::new(pattern).ok()
}

/// `Regex::is_match`. Trusted: the answer is membership of `text` in the
/// language of the compiled regex.
#[verifier::external_body]
pub(crate) fn is_match(re: &Regex, text: &str) -> (b: bool)
    ensures
        b == regex_language(*re).contains(text@),
{
    re.is_match(text)
}

} // verus!
