//! Lines and surrounding whitespace of a text, over its characters.

use vstd::prelude::*;

verus! {

/// Whether `c` is white space in the sense of Unicode's `White_Space`
/// property.
pub open spec fn is_whitespace(c: char) -> bool {
    let n = c as u32;
    ||| 0x09 <= n <= 0x0D
    ||| n == 0x20
    ||| n == 0x85
    ||| n == 0xA0
    ||| n == 0x1680
    ||| 0x2000 <= n <= 0x200A
    ||| n == 0x2028
    ||| n == 0x2029
    ||| n == 0x202F
    ||| n == 0x205F
    ||| n == 0x3000
}

/// `s` without its leading white space.
pub open spec fn trim_start(s: Seq<char>) -> Seq<char>
    decreases s.len(),
{
    if s.len() > 0 && is_whitespace(s[0]) {
        trim_start(s.skip(1))
    } else {
        s
    }
}

/// `s` without its trailing white space.
pub open spec fn trim_end(s: Seq<char>) -> Seq<char>
    decreases s.len(),
{
    if s.len() > 0 && is_whitespace(s.last()) {
        trim_end(s.drop_last())
    } else {
        s
    }
}

/// `s` without the white space at either end.
pub open spec fn trim(s: Seq<char>) -> Seq<char> {
    trim_end(trim_start(s))
}

/// Whether `s` holds nothing but white space.
pub open spec fn is_blank(s: Seq<char>) -> bool {
    forall|i: int| 0 <= i < s.len() ==> is_whitespace(#[trigger] s[i])
}

/// The number of characters before the first line feed of `text`, or the
/// length of `text` if it holds none.
pub open spec fn line_len(text: Seq<char>) -> nat
    decreases text.len(),
{
    if text.len() == 0 || text[0] == '\n' {
        0
    } else {
        1 + line_len(text.skip(1))
    }
}

/// The first line of `text`, without the line feed that ends it.
pub open spec fn first_line(text: Seq<char>) -> Seq<char> {
    text.take(line_len(text) as int)
}

/// What follows the first line of `text` and the line feed that ends it.
pub open spec fn after_first_line(text: Seq<char>) -> Seq<char> {
    if line_len(text) < text.len() {
        text.skip(line_len(text) as int + 1)
    } else {
        Seq::empty()
    }
}

/// The lines of `text`: the stretches between line feeds. A line feed at the
/// very end opens no further line, so the empty text has no lines.
pub open spec fn lines(text: Seq<char>) -> Seq<Seq<char>>
    decreases text.len(),
{
    if text.len() == 0 {
        Seq::empty()
    } else {
        seq![first_line(text)] + lines(after_first_line(text))
    }
}

pub proof fn lemma_line_len_bound(text: Seq<char>)
    ensures
        line_len(text) <= text.len(),
        line_len(text) < text.len() ==> text[line_len(text) as int] == '\n',
        forall|i: int| 0 <= i < line_len(text) ==> text[i] != '\n',
    decreases text.len(),
{
    if text.len() == 0 || text[0] == '\n' {
    } else {
        let rest = text.skip(1);
        lemma_line_len_bound(rest);
        assert forall|i: int| 0 <= i < line_len(text) implies text[i] != '\n' by {
            if i > 0 {
                assert(text[i] == rest[i - 1]);
            }
        }
        if line_len(text) < text.len() {
            assert(text[line_len(text) as int] == rest[line_len(rest) as int]);
        }
    }
}

/// Whether `c` is white space.
pub fn is_whitespace_char(c: char) -> (b: bool)
    ensures
        b == is_whitespace(c),
{
    let n: u32 = c as u32;
    (0x09 <= n && n <= 0x0D) || n == 0x20 || n == 0x85 || n == 0xA0 || n == 0x1680 || (0x2000 <= n
        && n <= 0x200A) || n == 0x2028 || n == 0x2029 || n == 0x202F || n == 0x205F || n == 0x3000
}

/// The characters of `s`, in order.
pub fn chars_of(s: &str) -> (v: Vec<char>)
    ensures
        v@ == s@,
{
    let mut v: Vec<char> = Vec::new();
    for c in it: s.chars()
        invariant
            v@ == it.seq().take(it.index() as int),
    {
        v.push(c);
    }
    v
}

/// Where the line that starts at `start` ends: the index of the next line
/// feed, or the length of `chars` if none follows.
pub(crate) fn line_end(chars: &Vec<char>, start: usize) -> (end: usize)
    requires
        start <= chars.len(),
    ensures
        start <= end <= chars.len(),
        end - start == line_len(chars@.skip(start as int)),
{
    let mut end: usize = start;
    while end < chars.len() && chars[end] != '\n'
        invariant
            start <= end <= chars.len(),
            line_len(chars@.skip(start as int)) == (end - start) + line_len(
                chars@.skip(end as int),
            ),
        decreases chars.len() - end,
    {
        assert(chars@.skip(end as int).skip(1) =~= chars@.skip(end as int + 1));
        end = end + 1;
    }
    end
}

/// The bounds of `chars[lo..hi]` once the white space at either end is taken
/// away.
pub(crate) fn trim_bounds(chars: &Vec<char>, lo: usize, hi: usize) -> (r: (usize, usize))
    requires
        lo <= hi <= chars.len(),
    ensures
        lo <= r.0 <= r.1 <= hi,
        chars@.subrange(r.0 as int, r.1 as int) == trim(chars@.subrange(lo as int, hi as int)),
{
    let mut from: usize = lo;
    while from < hi && is_whitespace_char(chars[from])
        invariant
            lo <= from <= hi <= chars.len(),
            trim_start(chars@.subrange(lo as int, hi as int)) == trim_start(
                chars@.subrange(from as int, hi as int),
            ),
        decreases hi - from,
    {
        assert(chars@.subrange(from as int, hi as int).skip(1) =~= chars@.subrange(
            from as int + 1,
            hi as int,
        ));
        from = from + 1;
    }
    let mut to: usize = hi;
    while from < to && is_whitespace_char(chars[to - 1])
        invariant
            from <= to <= hi <= chars.len(),
            trim_end(chars@.subrange(from as int, hi as int)) == trim_end(
                chars@.subrange(from as int, to as int),
            ),
        decreases to - from,
    {
        assert(chars@.subrange(from as int, to as int).drop_last() =~= chars@.subrange(
            from as int,
            to as int - 1,
        ));
        to = to - 1;
    }
    (from, to)
}

/// Whether `s` holds nothing but white space.
pub fn is_blank_str(s: &str) -> (b: bool)
    ensures
        b == is_blank(s@),
{
    let chars = chars_of(s);
    let mut i: usize = 0;
    while i < chars.len()
        invariant
            i <= chars.len(),
            chars@ == s@,
            forall|j: int| 0 <= j < i ==> is_whitespace(#[trigger] chars@[j]),
        decreases chars.len() - i,
    {
        if !is_whitespace_char(chars[i]) {
            return false;
        }
        i = i + 1;
    }
    true
}

} // verus!
