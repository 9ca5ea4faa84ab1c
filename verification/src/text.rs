//! Text handling for the command line of a client: trimming, prefixes, the
//! length of a text in bytes, and decimal numbers.
//!
//! The specifications speak of sequences of characters. The functions work
//! on a list of characters between two positions, so that a command is
//! taken apart without copying it.

use vstd::prelude::*;

verus! {

/// Whether `c` is white space: one of the code points with the Unicode
/// property `White_Space`.
pub open spec fn is_whitespace(c: char) -> bool {
    let code = c as u32;
    ||| 0x09 <= code <= 0x0D
    ||| code == 0x20
    ||| code == 0x85
    ||| code == 0xA0
    ||| code == 0x1680
    ||| 0x2000 <= code <= 0x200A
    ||| code == 0x2028
    ||| code == 0x2029
    ||| code == 0x202F
    ||| code == 0x205F
    ||| code == 0x3000
}

/// Whether `c` is white space.
pub fn whitespace(c: char) -> (white: bool)
    ensures
        white == is_whitespace(c),
{
    let code: u32 = c as u32;
    (0x09 <= code && code <= 0x0D) || code == 0x20 || code == 0x85 || code == 0xA0 || code
        == 0x1680 || (0x2000 <= code && code <= 0x200A) || code == 0x2028 || code == 0x2029
        || code == 0x202F || code == 0x205F || code == 0x3000
}

/// `s` without the white space at its start.
pub open spec fn trim_start(s: Seq<char>) -> Seq<char>
    decreases s.len(),
{
    if s.len() > 0 && is_whitespace(s[0]) {
        trim_start(s.skip(1))
    } else {
        s
    }
}

/// `s` without the white space at its end.
pub open spec fn trim_end(s: Seq<char>) -> Seq<char>
    decreases s.len(),
{
    if s.len() > 0 && is_whitespace(s.last()) {
        trim_end(s.drop_last())
    } else {
        s
    }
}

/// `s` without the white space at either end.
pub open spec fn trim(s: Seq<char>) -> Seq<char> {
    trim_end(trim_start(s))
}

/// Whether `s` begins with `prefix`.
pub open spec fn has_prefix(s: Seq<char>, prefix: Seq<char>) -> bool {
    prefix.len() <= s.len() && s.take(prefix.len() as int) == prefix
}

/// `s` without every copy of `prefix` that it begins with, one after
/// another. An empty prefix removes nothing.
pub open spec fn strip_prefixes(s: Seq<char>, prefix: Seq<char>) -> Seq<char>
    decreases s.len(),
{
    if prefix.len() > 0 && has_prefix(s, prefix) {
        strip_prefixes(s.skip(prefix.len() as int), prefix)
    } else {
        s
    }
}

/// The number of bytes that `c` takes in UTF-8.
pub open spec fn utf8_width(c: char) -> nat {
    let code = c as u32;
    if code < 0x80 {
        1
    } else if code < 0x800 {
        2
    } else if code < 0x10000 {
        3
    } else {
        4
    }
}

/// The number of bytes that `s` takes in UTF-8.
pub open spec fn utf8_len(s: Seq<char>) -> nat
    decreases s.len(),
{
    if s.len() == 0 {
        0
    } else {
        utf8_len(s.drop_last()) + utf8_width(s.last())
    }
}

/// Why a text is not a number of the wanted type.
#[derive(Clone, Copy, Debug, PartialEq, Eq, Structural)]
pub enum NumberError {
    /// The text is empty.
    Empty,
    /// The text holds something that is not a digit, or only a sign.
    InvalidDigit,
    /// The number is above the range.
    PosOverflow,
    /// The number is below the range.
    NegOverflow,
}

/// The value of a decimal digit.
pub open spec fn digit_value(c: char) -> Option<int> {
    if '0' <= c <= '9' {
        Some(c as u32 - '0' as u32)
    } else {
        None
    }
}

/// Reads the digits of `s` from the left on top of `so_far`, adding them for
/// a positive number and subtracting them for a negative one. The first
/// character that is no digit, or the first digit that takes the number out of
/// `min ..= max`, ends the reading with its error.
pub open spec fn read_digits(s: Seq<char>, so_far: int, negative: bool, min: int, max: int) -> Result<
    int,
    NumberError,
>
    decreases s.len(),
{
    if s.len() == 0 {
        Ok(so_far)
    } else {
        match digit_value(s[0]) {
            None => Err(NumberError::InvalidDigit),
            Some(digit) => {
                let next = if negative {
                    so_far * 10 - digit
                } else {
                    so_far * 10 + digit
                };
                if next > max {
                    Err(NumberError::PosOverflow)
                } else if next < min {
                    Err(NumberError::NegOverflow)
                } else {
                    read_digits(s.skip(1), next, negative, min, max)
                }
            },
        }
    }
}

/// The number that `s` writes in decimal, within `min ..= max`: an optional
/// `+` or `-` and then at least one digit, with nothing before, between or
/// after.
pub open spec fn parse_number(s: Seq<char>, min: int, max: int) -> Result<int, NumberError> {
    if s.len() == 0 {
        Err(NumberError::Empty)
    } else if s.len() == 1 && (s[0] == '+' || s[0] == '-') {
        Err(NumberError::InvalidDigit)
    } else if s[0] == '+' {
        read_digits(s.skip(1), 0, false, min, max)
    } else if s[0] == '-' {
        read_digits(s.skip(1), 0, true, min, max)
    } else {
        read_digits(s, 0, false, min, max)
    }
}

/// Calls `String::push`, which appends one character to the end of a text.
#[verifier::external_body]
pub(crate) fn push_char(text: &mut String, c: char)
    ensures
        final(text)@ == old(text)@.push(c),
{
    text.push(c);
}

/// The characters of `text`, in order.
pub fn chars_of(text: &str) -> (chars: Vec<char>)
    ensures
        chars@ == text@,
{
    let mut chars: Vec<char> = Vec::new();
    for c in it: text.chars()
        invariant
            it.seq() == text@,
            chars@ == text@.take(it.index() as int),
    {
        chars.push(c);
        assert(text@.take(it.index() + 1) =~= text@.take(it.index() as int).push(c));
    }
    assert(text@.take(text@.len() as int) =~= text@);
    chars
}

/// The position in `chars[from..to]` after its leading white space.
pub fn skip_whitespace(chars: &Vec<char>, from: usize, to: usize) -> (start: usize)
    requires
        from <= to <= chars.len(),
    ensures
        from <= start <= to,
        chars@.subrange(start as int, to as int) == trim_start(chars@.subrange(from as int, to as int)),
{
    let mut start: usize = from;
    while start < to && whitespace(chars[start])
        invariant
            from <= start <= to <= chars.len(),
            trim_start(chars@.subrange(start as int, to as int)) == trim_start(
                chars@.subrange(from as int, to as int),
            ),
        decreases to - start,
    {
        assert(chars@.subrange(start as int, to as int).skip(1) =~= chars@.subrange(
            start + 1,
            to as int,
        ));
        start += 1;
    }
    start
}

/// The position in `chars[from..to]` before its trailing white space.
pub fn drop_whitespace(chars: &Vec<char>, from: usize, to: usize) -> (end: usize)
    requires
        from <= to <= chars.len(),
    ensures
        from <= end <= to,
        chars@.subrange(from as int, end as int) == trim_end(chars@.subrange(from as int, to as int)),
{
    let mut end: usize = to;
    while from < end && whitespace(chars[end - 1])
        invariant
            from <= end <= to <= chars.len(),
            trim_end(chars@.subrange(from as int, end as int)) == trim_end(
                chars@.subrange(from as int, to as int),
            ),
        decreases end - from,
    {
        assert(chars@.subrange(from as int, end as int).drop_last() =~= chars@.subrange(
            from as int,
            end - 1,
        ));
        end -= 1;
    }
    end
}

/// The bounds of `chars[from..to]` without the white space at either end.
pub fn trim_range(chars: &Vec<char>, from: usize, to: usize) -> (bounds: (usize, usize))
    requires
        from <= to <= chars.len(),
    ensures
        from <= bounds.0 <= bounds.1 <= to,
        chars@.subrange(bounds.0 as int, bounds.1 as int) == trim(
            chars@.subrange(from as int, to as int),
        ),
{
    let start = skip_whitespace(chars, from, to);
    let end = drop_whitespace(chars, start, to);
    (start, end)
}

/// Whether `chars[from..to]` begins with `prefix`.
pub fn starts_with(chars: &Vec<char>, from: usize, to: usize, prefix: &Vec<char>) -> (found: bool)
    requires
        from <= to <= chars.len(),
    ensures
        found == has_prefix(chars@.subrange(from as int, to as int), prefix@),
{
    if prefix.len() > to - from {
        return false;
    }
    let ghost s = chars@.subrange(from as int, to as int);
    let mut i: usize = 0;
    while i < prefix.len()
        invariant
            i <= prefix.len() <= to - from,
            from <= to <= chars.len(),
            s == chars@.subrange(from as int, to as int),
            forall|k: int| 0 <= k < i ==> s[k] == prefix@[k],
        decreases prefix.len() - i,
    {
        if chars[from + i] != prefix[i] {
            assert(s.take(prefix.len() as int)[i as int] != prefix@[i as int]);
            return false;
        }
        i += 1;
    }
    assert(s.take(prefix.len() as int) =~= prefix@);
    true
}

/// Whether `chars[from..to]` is exactly `word`.
pub fn is_word(chars: &Vec<char>, from: usize, to: usize, word: &Vec<char>) -> (same: bool)
    requires
        from <= to <= chars.len(),
    ensures
        same == (chars@.subrange(from as int, to as int) == word@),
{
    if word.len() != to - from {
        return false;
    }
    let found = starts_with(chars, from, to, word);
    assert(chars@.subrange(from as int, to as int).take(word.len() as int) =~= chars@.subrange(
        from as int,
        to as int,
    ));
    found
}

/// The position in `chars[from..to]` after every copy of `prefix` that it
/// begins with.
pub fn skip_prefixes(chars: &Vec<char>, from: usize, to: usize, prefix: &Vec<char>) -> (start: usize)
    requires
        from <= to <= chars.len(),
    ensures
        from <= start <= to,
        chars@.subrange(start as int, to as int) == strip_prefixes(
            chars@.subrange(from as int, to as int),
            prefix@,
        ),
{
    let mut start: usize = from;
    if prefix.len() == 0 {
        return start;
    }
    while starts_with(chars, start, to, prefix)
        invariant
            from <= start <= to <= chars.len(),
            prefix.len() > 0,
            strip_prefixes(chars@.subrange(start as int, to as int), prefix@) == strip_prefixes(
                chars@.subrange(from as int, to as int),
                prefix@,
            ),
        decreases to - start,
    {
        assert(chars@.subrange(start as int, to as int).skip(prefix.len() as int)
            =~= chars@.subrange(start + prefix.len(), to as int));
        start += prefix.len();
    }
    start
}

/// The number of bytes that `c` takes in UTF-8.
pub fn width(c: char) -> (bytes: usize)
    ensures
        bytes == utf8_width(c),
{
    let code: u32 = c as u32;
    if code < 0x80 {
        1
    } else if code < 0x800 {
        2
    } else if code < 0x10000 {
        3
    } else {
        4
    }
}

/// A text takes at least as many bytes as any of its beginnings.
pub proof fn lemma_utf8_len_prefix(s: Seq<char>, k: int)
    requires
        0 <= k <= s.len(),
    ensures
        utf8_len(s.take(k)) <= utf8_len(s),
    decreases s.len(),
{
    if k == s.len() {
        assert(s.take(k) =~= s);
    } else {
        assert(s.drop_last().take(k) =~= s.take(k));
        lemma_utf8_len_prefix(s.drop_last(), k);
    }
}

/// The number of bytes that `chars[from..to]` takes in UTF-8, or the largest
/// number there is where it takes more.
pub fn byte_len(chars: &Vec<char>, from: usize, to: usize) -> (bytes: usize)
    requires
        from <= to <= chars.len(),
    ensures
        bytes == if utf8_len(chars@.subrange(from as int, to as int)) <= usize::MAX {
            utf8_len(chars@.subrange(from as int, to as int))
        } else {
            usize::MAX as nat
        },
{
    let mut bytes: usize = 0;
    let mut i: usize = from;
    let ghost whole = chars@.subrange(from as int, to as int);
    assert(chars@.subrange(from as int, from as int) =~= Seq::<char>::empty());
    while i < to
        invariant
            from <= i <= to <= chars.len(),
            whole == chars@.subrange(from as int, to as int),
            bytes == utf8_len(chars@.subrange(from as int, i as int)),
        decreases to - i,
    {
        assert(chars@.subrange(from as int, i + 1).drop_last() =~= chars@.subrange(
            from as int,
            i as int,
        ));
        let wide = width(chars[i]);
        if bytes > usize::MAX - wide {
            proof {
                assert(whole.take(i + 1 - from) =~= chars@.subrange(from as int, i + 1));
                lemma_utf8_len_prefix(whole, i + 1 - from);
            }
            return usize::MAX;
        }
        bytes += wide;
        i += 1;
    }
    bytes
}

/// The value of the digit `c`, if it is one.
pub fn digit_of(c: char) -> (digit: Option<u8>)
    ensures
        match digit {
            Some(d) => digit_value(c) == Some(d as int) && d < 10,
            None => digit_value(c) is None,
        },
{
    if '0' <= c && c <= '9' {
        Some((c as u32 - '0' as u32) as u8)
    } else {
        None
    }
}

/// Reads `chars[from..to]` as a decimal number within `min ..= max`.
pub fn parse_range(chars: &Vec<char>, from: usize, to: usize, min: i64, max: i64) -> (number: Result<
    i64,
    NumberError,
>)
    requires
        from <= to <= chars.len(),
        min <= 0 <= max,
    ensures
        match number {
            Ok(n) => min <= n <= max && parse_number(
                chars@.subrange(from as int, to as int),
                min as int,
                max as int,
            ) == Ok::<int, NumberError>(n as int),
            Err(e) => parse_number(chars@.subrange(from as int, to as int), min as int, max as int)
                == Err::<int, NumberError>(e),
        },
{
    let ghost s = chars@.subrange(from as int, to as int);
    if from == to {
        return Err(NumberError::Empty);
    }
    let first = chars[from];
    assert(s[0] == first);
    if to - from == 1 && (first == '+' || first == '-') {
        return Err(NumberError::InvalidDigit);
    }
    let negative = first == '-';
    let mut i: usize = if first == '+' || first == '-' {
        from + 1
    } else {
        from
    };
    assert(s.skip(i - from) =~= chars@.subrange(i as int, to as int));
    assert(s.skip(0) =~= s);
    let mut so_far: i64 = 0;
    while i < to
        invariant
            from <= i <= to <= chars.len(),
            min <= so_far <= max,
            s == chars@.subrange(from as int, to as int),
            parse_number(s, min as int, max as int) == read_digits(
                chars@.subrange(i as int, to as int),
                so_far as int,
                negative,
                min as int,
                max as int,
            ),
        decreases to - i,
    {
        let ghost rest = chars@.subrange(i as int, to as int);
        assert(rest[0] == chars@[i as int]);
        assert(rest.skip(1) =~= chars@.subrange(i + 1, to as int));
        match digit_of(chars[i]) {
            None => {
                return Err(NumberError::InvalidDigit);
            },
            Some(digit) => {
                let next: i128 = if negative {
                    so_far as i128 * 10 - digit as i128
                } else {
                    so_far as i128 * 10 + digit as i128
                };
                if next > max as i128 {
                    return Err(NumberError::PosOverflow);
                }
                if next < min as i128 {
                    return Err(NumberError::NegOverflow);
                }
                so_far = next as i64;
            },
        }
        i += 1;
    }
    Ok(so_far)
}

} // verus!
