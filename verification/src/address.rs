//! Onion addresses: their shape, and how one is found in the output of the
//! helper's address query.

use crate::pattern::{pattern_language, regex_language};
use crate::text::{
    after_first_line, chars_of, first_line, lemma_line_len_bound, line_end, lines, trim,
    trim_bounds,
};
use regex::Regex;
use vstd::prelude::*;
use vstd::string::{to_string_from_display_ensures, StrSliceExecFns};

verus! {

/// The shape of an onion address, as a regular expression: 56 characters out
/// of `a` to `z` and `2` to `7`, then `.onion`, and nothing before or after.
pub const ADDRESS_PATTERN: &'static str = r"^[a-z2-7]{56}\.onion$";

/// Whether `s` has the shape of an onion address.
pub open spec fn is_onion_address(s: Seq<char>) -> bool {
    pattern_language(ADDRESS_PATTERN@).contains(s)
}

/// The first line of `text` that, with the white space at its ends taken
/// away, is an onion address; `None` if `text` has no such line. A line ends
/// at a line feed. A carriage return before the line feed is white space, so
/// it goes with the trimming.
pub open spec fn first_address(text: Seq<char>) -> Option<Seq<char>>
    decreases text.len(),
{
    if text.len() == 0 {
        None
    } else if is_onion_address(trim(first_line(text))) {
        Some(trim(first_line(text)))
    } else {
        first_address(after_first_line(text))
    }
}

/// Whether line `i` of `text`, trimmed, is an onion address.
pub open spec fn line_is_address(text: Seq<char>, i: int) -> bool {
    0 <= i < lines(text).len() && is_onion_address(trim(lines(text)[i]))
}

/// What `first_address` finds is an onion address.
pub proof fn lemma_first_address_is_address(text: Seq<char>)
    ensures
        first_address(text) matches Some(a) ==> is_onion_address(a),
    decreases text.len(),
{
    if text.len() > 0 && !is_onion_address(trim(first_line(text))) {
        lemma_line_len_bound(text);
        lemma_first_address_is_address(after_first_line(text));
    }
}

/// `first_address` in terms of the lines of the text: it finds the first
/// line that, trimmed, is an onion address, and finds nothing only where no
/// line is one.
pub proof fn lemma_first_address_is_first_line(text: Seq<char>)
    ensures
        match first_address(text) {
            Some(a) => exists|i: int|
                {
                    &&& #[trigger] line_is_address(text, i)
                    &&& a == trim(lines(text)[i])
                    &&& forall|j: int| 0 <= j < i ==> !line_is_address(text, j)
                },
            None => forall|i: int| !line_is_address(text, i),
        },
    decreases text.len(),
{
    if text.len() == 0 {
    } else {
        lemma_line_len_bound(text);
        let rest = after_first_line(text);
        let head = trim(first_line(text));
        assert(lines(text)[0] == first_line(text));
        assert forall|i: int| 0 < i implies line_is_address(text, i) == line_is_address(
            rest,
            i - 1,
        ) by {
            if i < lines(text).len() {
                assert(lines(text)[i] == lines(rest)[i - 1]);
            }
        }
        if is_onion_address(head) {
            assert(line_is_address(text, 0));
        } else {
            lemma_first_address_is_first_line(rest);
            match first_address(rest) {
                Some(a) => {
                    let k = choose|i: int|
                        {
                            &&& #[trigger] line_is_address(rest, i)
                            &&& a == trim(lines(rest)[i])
                            &&& forall|j: int| 0 <= j < i ==> !line_is_address(rest, j)
                        };
                    assert(line_is_address(text, k + 1));
                    assert(lines(text)[k + 1] == lines(rest)[k]);
                    assert forall|j: int| 0 <= j < k + 1 implies !line_is_address(text, j) by {
                        if j > 0 {
                            assert(!line_is_address(rest, j - 1));
                        }
                    }
                },
                None => {
                    assert forall|i: int| !line_is_address(text, i) by {
                        if i > 0 {
                            assert(!line_is_address(rest, i - 1));
                        }
                    }
                },
            }
        }
    }
}

/// The address pattern was refused by the regular expression compiler.
#[derive(Debug, Clone, PartialEq, Eq)]
pub struct PatternRejected {
    pub reason: String,
}

/// The compiled address pattern.
#[derive(Debug)]
pub struct AddressMatcher {
    regex: Regex,
}

impl AddressMatcher {
    #[verifier::type_invariant]
    spec fn matches_addresses(self) -> bool {
        regex_language(self.regex) == pattern_language(ADDRESS_PATTERN@)
    }

    /// Whether the matcher accepts `s`.
    pub closed spec fn accepts(&self, s: Seq<char>) -> bool {
        regex_language(self.regex).contains(s)
    }

    /// Compiles the address pattern. Whether that succeeds is for the
    /// compiler to say; a matcher that comes back accepts the onion
    /// addresses and nothing else.
    pub fn new() -> (r: Result<AddressMatcher, PatternRejected>)
        ensures
            r matches Ok(matcher) ==> forall|s: Seq<char>|
                #[trigger] matcher.accepts(s) == is_onion_address(s),
    {
        Self::from_compiled(Regex::new(ADDRESS_PATTERN))
    }

    /// What the compiler made of the address pattern, as a matcher: the
    /// matcher accepts what the compiled expression matches, and a pattern
    /// that was refused is rejected with the compiler's words.
    pub fn from_compiled(compiled: Result<Regex, regex::Error>) -> (r: Result<
        AddressMatcher,
        PatternRejected,
    >)
        requires
            compiled matches Ok(regex) ==> regex_language(regex) == pattern_language(
                ADDRESS_PATTERN@,
            ),
        ensures
            match (compiled, r) {
                (Ok(regex), Ok(matcher)) => forall|s: Seq<char>|
                    #[trigger] matcher.accepts(s) == regex_language(regex).contains(s),
                (Err(e), Err(rejected)) => to_string_from_display_ensures(&e, rejected.reason),
                _ => false,
            },
    {
        match compiled {
            Ok(regex) => Ok(AddressMatcher { regex }),
            Err(e) => Err(PatternRejected { reason: e.to_string() }),
        }
    }

    /// Whether `candidate` is an onion address.
    pub fn is_match(&self, candidate: &str) -> (b: bool)
        ensures
            b == is_onion_address(candidate@),
            b == self.accepts(candidate@),
    {
        proof {
            use_type_invariant(self);
        }
        self.regex.is_match(candidate)
    }
}

/// A string that has the shape of an onion address.
#[derive(Debug, PartialEq, Eq)]
pub struct OnionAddress {
    text: String,
}

impl View for OnionAddress {
    type V = Seq<char>;

    closed spec fn view(&self) -> Seq<char> {
        self.text@
    }
}

impl Clone for OnionAddress {
    fn clone(&self) -> (copy: Self)
        ensures
            copy@ == self@,
    {
        proof {
            use_type_invariant(self);
        }
        OnionAddress { text: self.text.clone() }
    }
}

impl OnionAddress {
    #[verifier::type_invariant]
    spec fn well_shaped(self) -> bool {
        is_onion_address(self.text@)
    }

    /// `candidate` as an address, if it has the shape of one.
    pub fn parse(matcher: &AddressMatcher, candidate: &str) -> (r: Option<OnionAddress>)
        ensures
            match r {
                Some(address) => is_onion_address(candidate@) && address@ == candidate@,
                None => !is_onion_address(candidate@),
            },
    {
        if matcher.is_match(candidate) {
            Some(OnionAddress { text: candidate.to_owned() })
        } else {
            None
        }
    }

    /// The address as text. Every address has the shape of one.
    pub fn as_str(&self) -> (s: &str)
        ensures
            s@ == self@,
            is_onion_address(self@),
    {
        proof {
            use_type_invariant(self);
        }
        self.text.as_str()
    }

    /// The address as text, given away.
    pub fn into_string(self) -> (s: String)
        ensures
            s@ == self@,
            is_onion_address(self@),
    {
        proof {
            use_type_invariant(&self);
        }
        self.text
    }
}

/// The view of an address that may be absent.
pub open spec fn address_view(address: Option<OnionAddress>) -> Option<Seq<char>> {
    match address {
        Some(a) => Some(a@),
        None => None,
    }
}

/// Scans `output` line by line and returns the first line that, trimmed, is
/// an onion address.
pub fn find_onion_address(matcher: &AddressMatcher, output: &str) -> (found: Option<OnionAddress>)
    ensures
        address_view(found) == first_address(output@),
{
    let chars = chars_of(output);
    let n = chars.len();
    let mut start: usize = 0;
    assert(output@.skip(0) =~= output@);
    while start < n
        invariant
            start <= n,
            n == chars.len(),
            chars@ == output@,
            first_address(output@) == first_address(output@.skip(start as int)),
        decreases n - start,
    {
        let end = line_end(&chars, start);
        let (from, to) = trim_bounds(&chars, start, end);
        let ghost rest = output@.skip(start as int);
        proof {
            assert(first_line(rest) =~= output@.subrange(start as int, end as int));
            if end < n {
                assert(after_first_line(rest) =~= output@.skip(end as int + 1));
            } else {
                assert(after_first_line(rest) =~= output@.skip(end as int));
            }
        }
        match OnionAddress::parse(matcher, output.substring_char(from, to)) {
            Some(address) => {
                return Some(address);
            },
            None => {},
        }
        start = if end < n {
            end + 1
        } else {
            end
        };
    }
    None
}

} // verus!
