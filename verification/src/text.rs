//! Small operations on text that the front end needs: trimming, matching
//! words, and splitting into lines.
//!
//! Text is handled as a sequence of characters, never as bytes.

use vstd::prelude::*;
use vstd::slice::slice_subrange;

verus! {

/// Whether `c` is white space: a character with the Unicode property
/// `White_Space`.
pub open spec fn is_white_space(c: char) -> bool {
    let n = c as u32;
    ||| 0x09 <= n <= 0x0D
    ||| n == 0x20
    ||| n == 0x85
    ||| n == 0xA0
    ||| n == 0x1680
    ||| 0x2000 <= n <= 0x200A
    ||| n == 0x2028
    ||| n == 0x2029
    ||| n == 0x202F
    ||| n == 0x205F
    ||| n == 0x3000
}

/// `text` without the white space at its start.
pub open spec fn trimmed_start(text: Seq<char>) -> Seq<char>
    decreases text.len(),
{
    if text.len() > 0 && is_white_space(text[0]) {
        trimmed_start(text.drop_first())
    } else {
        text
    }
}

/// `text` without the white space at its end.
pub open spec fn trimmed_end(text: Seq<char>) -> Seq<char>
    decreases text.len(),
{
    if text.len() > 0 && is_white_space(text.last()) {
        trimmed_end(text.drop_last())
    } else {
        text
    }
}

/// `text` without the white space at its start and at its end.
pub open spec fn trimmed(text: Seq<char>) -> Seq<char> {
    trimmed_end(trimmed_start(text))
}

/// Whether `text` begins with `word`.
pub open spec fn has_prefix(text: Seq<char>, word: Seq<char>) -> bool {
    word.len() <= text.len() && text.take(word.len() as int) == word
}

/// The number of characters of `text` before its first line feed, or its
/// length if it holds none.
pub open spec fn first_line_length(text: Seq<char>) -> nat
    decreases text.len(),
{
    if text.len() == 0 || text[0] == '\n' {
        0
    } else {
        1 + first_line_length(text.drop_first())
    }
}

/// `line` without the carriage return at its end, if it has one.
pub open spec fn without_return(line: Seq<char>) -> Seq<char> {
    if line.len() > 0 && line.last() == '\r' {
        line.drop_last()
    } else {
        line
    }
}

/// The lines of `text`.
///
/// A line ends with a line feed, or with a carriage return and a line feed;
/// neither belongs to the line. The last line need not be ended, and a
/// carriage return without a line feed is part of its line. Empty text has
/// no lines.
pub open spec fn lines_of(text: Seq<char>) -> Seq<Seq<char>>
    decreases text.len(),
{
    if text.len() == 0 {
        Seq::empty()
    } else {
        let n = first_line_length(text);
        if n >= text.len() {
            seq![text]
        } else {
            seq![without_return(text.take(n as int))] + lines_of(text.skip(n as int + 1))
        }
    }
}

/// The text that `text` becomes when every character is put in lower case
/// by the rules of Unicode.
pub uninterp spec fn lowercase_of(text: Seq<char>) -> Seq<char>;

/// Puts `text` in lower case with `str::to_lowercase`.
///
/// Trusted: the result is the text that [`lowercase_of`] names.
#[verifier::external_body]
pub(crate) fn lowercase(text: &str) -> (lowered: String)
    ensures
        lowered@ == lowercase_of(text@),
{
    text.to_lowercase()
}

/// Collects characters into a `String` with `String::from_iter`.
///
/// Trusted: the string holds exactly the characters given, in order.
#[verifier::external_body]
pub(crate) fn string_of(chars: &[char]) -> (text: String)
    ensures
        text@ == chars@,
{
    String::from_iter(chars.iter())
}

/// Whether `c` is white space.
pub fn white_space(c: char) -> (r: bool)
    ensures
        r == is_white_space(c),
{
    let n: u32 = c as u32;
    (0x09 <= n && n <= 0x0D) || n == 0x20 || n == 0x85 || n == 0xA0 || n == 0x1680 || (0x2000 <= n
        && n <= 0x200A) || n == 0x2028 || n == 0x2029 || n == 0x202F || n == 0x205F || n == 0x3000
}

/// The characters of `text`.
pub fn chars_of(text: &str) -> (chars: Vec<char>)
    ensures
        chars@ == text@,
{
    let mut chars: Vec<char> = Vec::new();
    for c in it: text.chars()
        invariant
            it.seq() == text@,
            chars@ == text@.take(it.index()),
    {
        chars.push(c);
    }
    chars
}

/// Where `text` starts and ends once its white space is trimmed.
pub fn trim_bounds(chars: &Vec<char>) -> (bounds: (usize, usize))
    ensures
        bounds.0 <= bounds.1 <= chars@.len(),
        chars@.subrange(bounds.0 as int, bounds.1 as int) == trimmed(chars@),
{
    let n: usize = chars.len();
    let mut from: usize = 0;
    assert(chars@.skip(0) =~= chars@);
    while from < n && white_space(chars[from])
        invariant
            from <= n == chars@.len(),
            trimmed_start(chars@) == trimmed_start(chars@.skip(from as int)),
        decreases n - from,
    {
        assert(chars@.skip(from as int).drop_first() =~= chars@.skip(from + 1));
        from = from + 1;
    }
    let mut to: usize = n;
    while to > from && white_space(chars[to - 1])
        invariant
            from <= to <= n == chars@.len(),
            trimmed(chars@) == trimmed_end(chars@.subrange(from as int, to as int)),
        decreases to - from,
    {
        assert(chars@.subrange(from as int, to as int).drop_last() =~= chars@.subrange(
            from as int,
            to - 1,
        ));
        to = to - 1;
    }
    (from, to)
}

/// Whether `from` and `to` mark a range of `text`.
pub open spec fn is_range(text: Seq<char>, from: int, to: int) -> bool {
    0 <= from <= to <= text.len()
}

/// Steps over `word` where it stands at `from` in `chars[..to]`.
///
/// Returns the position behind the word, or `None` if the text from `from`
/// to `to` does not begin with it, or if `from` and `to` mark no range of
/// the text.
pub fn skip_word(chars: &Vec<char>, from: usize, to: usize, word: &str) -> (next: Option<usize>)
    ensures
        next matches Some(k) ==> k == from + word@.len() && k <= to,
        next is Some <==> is_range(chars@, from as int, to as int) && has_prefix(
            chars@.subrange(from as int, to as int),
            word@,
        ),
{
    if from > to || to > chars.len() {
        return None;
    }
    let ghost text = chars@.subrange(from as int, to as int);
    let mut at: usize = from;
    for c in it: word.chars()
        invariant
            it.seq() == word@,
            text == chars@.subrange(from as int, to as int),
            from <= to <= chars@.len(),
            at == from + it.index() <= to,
            text.take(it.index()) == word@.take(it.index()),
    {
        if at >= to || chars[at] != c {
            return None;
        }
        at = at + 1;
    }
    assert(word@.take(word@.len() as int) =~= word@);
    Some(at)
}

/// Whether the text from `from` to `to` is exactly `word`. It is not if
/// `from` and `to` mark no range of the text.
pub fn is_word(chars: &Vec<char>, from: usize, to: usize, word: &str) -> (r: bool)
    ensures
        r == (is_range(chars@, from as int, to as int) && chars@.subrange(from as int, to as int)
            == word@),
{
    let ghost text = chars@.subrange(from as int, to as int);
    match skip_word(chars, from, to, word) {
        Some(k) => {
            proof {
                if k == to {
                    assert(text.take(text.len() as int) =~= text);
                }
            }
            k == to
        },
        None => {
            proof {
                if is_range(chars@, from as int, to as int) && text == word@ {
                    assert(text.take(text.len() as int) =~= text);
                }
            }
            false
        },
    }
}

/// Whether `text` holds nothing but white space.
pub fn is_blank(text: &str) -> (r: bool)
    ensures
        r == (trimmed(text@).len() == 0),
{
    let chars = chars_of(text);
    let (from, to) = trim_bounds(&chars);
    from == to
}

/// Where the line that starts at `from` ends: the position of the next line
/// feed, or the end of the text.
fn line_end(chars: &Vec<char>, from: usize) -> (end: usize)
    requires
        from <= chars@.len(),
    ensures
        from <= end <= chars@.len(),
        end - from == first_line_length(chars@.skip(from as int)),
{
    let n: usize = chars.len();
    let mut end: usize = from;
    while end < n && chars[end] != '\n'
        invariant
            from <= end <= n == chars@.len(),
            first_line_length(chars@.skip(from as int)) == (end - from) + first_line_length(
                chars@.skip(end as int),
            ),
        decreases n - end,
    {
        assert(chars@.skip(end as int).drop_first() =~= chars@.skip(end + 1));
        end = end + 1;
    }
    end
}

/// Splits `text` into its lines.
pub fn lines(text: &str) -> (found: Vec<String>)
    ensures
        crate::protocol::texts_of(found@) == lines_of(text@),
{
    let chars = chars_of(text);
    let n: usize = chars.len();
    let mut found: Vec<String> = Vec::new();
    let mut at: usize = 0;
    assert(chars@.skip(0) =~= chars@);
    while at < n
        invariant
            at <= n == chars@.len(),
            lines_of(chars@) == crate::protocol::texts_of(found@) + lines_of(
                chars@.skip(at as int),
            ),
        decreases n - at,
    {
        let ghost rest = chars@.skip(at as int);
        let end: usize = line_end(&chars, at);
        if end == n {
            let line = string_of(slice_subrange(chars.as_slice(), at, n));
            found.push(line);
            at = n;
        } else {
            let stop: usize = if end > at && chars[end - 1] == '\r' {
                end - 1
            } else {
                end
            };
            let line = string_of(slice_subrange(chars.as_slice(), at, stop));
            proof {
                assert(line@ =~= without_return(rest.take(end - at)));
                assert(rest.skip(end - at + 1) =~= chars@.skip(end + 1));
            }
            found.push(line);
            at = end + 1;
        }
    }
    found
}

} // verus!
