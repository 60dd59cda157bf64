//! Scanning of header text: words between white space, and the first
//! occurrence of a separator.

use vstd::prelude::*;
use vstd::string::*;
use vstd::utf8::{decode_utf8, valid_utf8};

verus! {

/// Whether `c` is white space: one of the characters that Unicode gives the
/// property White_Space. These are the controls U+0009 to U+000D, the space,
/// U+0085, U+00A0, U+1680, U+2000 to U+200A, U+2028, U+2029, U+202F, U+205F
/// and U+3000.
pub open spec fn white_space(c: char) -> bool {
    let code = c as u32;
    ||| 0x09 <= code <= 0x0D
    ||| code == 0x20
    ||| code == 0x85
    ||| code == 0xA0
    ||| code == 0x1680
    ||| 0x2000 <= code <= 0x200A
    ||| code == 0x2028
    ||| code == 0x2029
    ||| code == 0x202F
    ||| code == 0x205F
    ||| code == 0x3000
}

/// `char::is_whitespace`: true exactly for the characters with the Unicode
/// property White_Space, which [`white_space`] lists.
#[verifier::external_body]
fn is_white_space(c: char) -> (b: bool)
    ensures
        b == white_space(c),
{
    c.is_whitespace()
}

/// What a scan looks for.
pub enum Stop {
    /// A character that is white space.
    Space,
    /// A character that is not white space.
    Word,
    /// This character.
    At(char),
}

impl Stop {
    /// Whether `c` is what the scan looks for.
    pub open spec fn meets(self, c: char) -> bool {
        match self {
            Stop::Space => white_space(c),
            Stop::Word => !white_space(c),
            Stop::At(sep) => c == sep,
        }
    }
}

/// The least index at or after `from` whose character meets `stop`, or the
/// length of `s` where there is none.
pub open spec fn first_where(s: Seq<char>, from: int, stop: Stop) -> int
    decreases s.len() - from,
{
    if from < 0 || from >= s.len() {
        s.len() as int
    } else if stop.meets(s[from]) {
        from
    } else {
        first_where(s, from + 1, stop)
    }
}

/// Where the word starts that follows the white space at `from`.
pub open spec fn skip_space(s: Seq<char>, from: int) -> int {
    first_where(s, from, Stop::Word)
}

/// Where the word that starts at `from` ends.
pub open spec fn skip_word(s: Seq<char>, from: int) -> int {
    first_where(s, from, Stop::Space)
}

/// Where `sep` first occurs in `s` at or after `from`, or the length of `s`.
pub open spec fn next_index_of(s: Seq<char>, sep: char, from: int) -> int {
    first_where(s, from, Stop::At(sep))
}

/// Where `sep` first occurs in `s`, or the length of `s`.
pub open spec fn first_index_of(s: Seq<char>, sep: char) -> int {
    next_index_of(s, sep, 0)
}

/// What [`first_where`] returns lies between `from` and the end, nothing
/// before it meets `stop`, and the character there does.
pub proof fn lemma_first_where(s: Seq<char>, from: int, stop: Stop)
    requires
        0 <= from <= s.len(),
    ensures
        from <= first_where(s, from, stop) <= s.len(),
        forall|j: int| from <= j < first_where(s, from, stop) ==> !stop.meets(#[trigger] s[j]),
        first_where(s, from, stop) < s.len() ==> stop.meets(s[first_where(s, from, stop)]),
    decreases s.len() - from,
{
    if from < s.len() && !stop.meets(s[from]) {
        lemma_first_where(s, from + 1, stop);
    }
}

/// The separator occurs in `s` exactly where [`first_index_of`] lies before
/// the end, and it is then found there and nowhere before.
pub proof fn lemma_first_index_of(s: Seq<char>, sep: char)
    ensures
        0 <= first_index_of(s, sep) <= s.len(),
        (first_index_of(s, sep) < s.len()) == s.contains(sep),
        first_index_of(s, sep) < s.len() ==> s[first_index_of(s, sep)] == sep,
        forall|j: int| 0 <= j < first_index_of(s, sep) ==> #[trigger] s[j] != sep,
{
    lemma_first_where(s, 0, Stop::At(sep));
    let at = first_index_of(s, sep);
    if at < s.len() {
        assert(s.contains(s[at]));
    }
}

/// The first word of `s` at or after `from`, as its bounds: `None` where only
/// white space is left.
pub open spec fn word_at(s: Seq<char>, from: int) -> Option<(int, int)> {
    let start = skip_space(s, from);
    if start >= s.len() {
        None
    } else {
        Some((start, skip_word(s, start)))
    }
}

/// Finds the next word of `s` at or after the character index `from`.
pub fn next_word(s: &str, from: usize) -> (res: Option<(usize, usize)>)
    ensures
        match res {
            Some((start, end)) => word_at(s@, from as int) == Some((start as int, end as int))
                && from <= start < end <= s@.len(),
            None => word_at(s@, from as int).is_none(),
        },
{
    let len: usize = s.unicode_len();
    if from >= len {
        return None;
    }
    let mut start: usize = from;
    while start < len && is_white_space(s.get_char(start))
        invariant
            from <= start <= len,
            len == s@.len(),
            skip_space(s@, start as int) == skip_space(s@, from as int),
        decreases len - start,
    {
        start = start + 1;
    }
    if start >= len {
        return None;
    }
    let mut end: usize = start + 1;
    while end < len && !is_white_space(s.get_char(end))
        invariant
            start < end <= len,
            len == s@.len(),
            skip_word(s@, end as int) == skip_word(s@, start as int),
        decreases len - end,
    {
        end = end + 1;
    }
    Some((start, end))
}

/// Splits `s` at the first `sep`, which goes to neither part: `None` where
/// `sep` does not occur.
pub open spec fn split_first(s: Seq<char>, sep: char) -> Option<(Seq<char>, Seq<char>)> {
    let at = first_index_of(s, sep);
    if at >= s.len() {
        None
    } else {
        Some((s.subrange(0, at), s.subrange(at + 1, s.len() as int)))
    }
}

/// Splits `s` at the first `sep`.
pub fn split_once(s: &str, sep: char) -> (res: Option<(String, String)>)
    ensures
        match res {
            Some((head, tail)) => split_first(s@, sep) == Some((head@, tail@)),
            None => split_first(s@, sep).is_none(),
        },
{
    let len: usize = s.unicode_len();
    let mut at: usize = 0;
    while at < len && s.get_char(at) != sep
        invariant
            at <= len,
            len == s@.len(),
            next_index_of(s@, sep, at as int) == first_index_of(s@, sep),
        decreases len - at,
    {
        at = at + 1;
    }
    if at >= len {
        return None;
    }
    let head = String::from_str(s.substring_char(0, at));
    let tail = String::from_str(s.substring_char(at + 1, len));
    Some((head, tail))
}

/// `String::from_utf8`: the text that `bytes` encode, where they are valid
/// UTF-8, and nothing where they are not.
#[verifier::external_body]
pub(crate) fn text_of_bytes(bytes: Vec<u8>) -> (res: Option<String>)
    ensures
        match res {
            Some(text) => valid_utf8(bytes@) && text@ == decode_utf8(bytes@),
            None => !valid_utf8(bytes@),
        },
{
    String::from_utf8(bytes).ok()
}

/// Whether two texts hold the same characters.
pub fn same_text(a: &str, b: &str) -> (res: bool)
    ensures
        res == (a@ == b@),
{
    let len: usize = a.unicode_len();
    if b.unicode_len() != len {
        return false;
    }
    let mut i: usize = 0;
    while i < len
        invariant
            i <= len,
            len == a@.len(),
            len == b@.len(),
            forall|j: int| 0 <= j < i ==> a@[j] == b@[j],
        decreases len - i,
    {
        if a.get_char(i) != b.get_char(i) {
            return false;
        }
        i = i + 1;
    }
    assert(a@ =~= b@);
    true
}

} // verus!
