//! Regular expressions of the `regex` crate, as far as recognising an onion
//! address needs them: a pattern is compiled once and then matched against
//! candidates.
//!
//! Nothing here is proved. What a pattern matches is given a name, and the
//! two functions are held to that name.

use regex::Regex;
use vstd::prelude::*;

verus! {

/// `regex::Regex`, a compiled regular expression.
#[verifier::external_type_specification]
#[verifier::external_body]
pub struct ExRegex(regex::Regex);

/// `regex::Error`, the reason why a pattern was not compiled.
#[verifier::external_type_specification]
#[verifier::external_body]
pub struct ExRegexError(regex::Error);

/// What `Regex::new` makes of a pattern that it accepts: the haystacks in
/// which the regular expression written as `pattern`, read with the default
/// flags, has a match somewhere.
pub uninterp spec fn pattern_language(pattern: Seq<char>) -> Set<Seq<char>>;

/// What a compiled regular expression holds: the haystacks in which it has a
/// match somewhere.
pub uninterp spec fn regex_language(re: Regex) -> Set<Seq<char>>;

/// `Regex::new` compiles a pattern with the default flags. Nothing is
/// claimed about which patterns it accepts. The claim is that an expression
/// that comes back matches what its pattern describes.
pub assume_specification[ regex::Regex::new ](re: &str) -> (r: Result<Regex, regex::Error>)
    ensures
        r matches Ok(compiled) ==> regex_language(compiled) == pattern_language(re@),
;

/// `Regex::is_match` tells whether the expression has a match anywhere in
/// the haystack.
pub assume_specification[ regex::Regex::is_match ](re: &Regex, haystack: &str) -> (found: bool)
    ensures
        found == regex_language(*re).contains(haystack@),
;

} // verus!
