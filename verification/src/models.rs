//! Value types for the working rectangle, and the parser for the
//! `"<width>x<height>"` form in which a rectangle or origin is written.

use vstd::prelude::*;

verus! {

/// A screen coordinate, as reported by the mouse-control service and as
/// produced by the offset generator.
#[derive(Clone, Copy, Debug, PartialEq, Eq, Structural)]
pub struct Point {
    pub x: usize,
    pub y: usize,
}

/// Origin of the permitted working rectangle.
#[derive(Clone, Copy, Debug, PartialEq, Eq, Structural)]
pub struct InitPoint {
    pub x: usize,
    pub y: usize,
}

/// Extent of the permitted working rectangle.
#[derive(Clone, Copy, Debug, PartialEq, Eq, Structural)]
pub struct WorkingArea {
    pub width: usize,
    pub height: usize,
}

/// Why a `"<width>x<height>"` string was rejected.
#[derive(Clone, Copy, Debug, PartialEq, Eq, Structural)]
pub enum ParseError {
    /// The string does not consist of exactly two parts separated by one `x`.
    ExpectedFormat,
    /// One of the two parts is not a decimal number that fits in `usize`.
    ParsingError,
}

impl ParseError {
    /// A human-readable description of the error.
    pub fn message(&self) -> (m: &'static str)
        ensures
            *self is ExpectedFormat ==> m@ == "expected format: \"1024x768\""@,
            *self is ParsingError ==> m@ == "parsing error"@,
    {
        match self {
            ParseError::ExpectedFormat => "expected format: \"1024x768\"",
            ParseError::ParsingError => "parsing error",
        }
    }
}

/// Whether `c` is a decimal digit.
pub open spec fn is_dec_digit(c: char) -> bool {
    '0' <= c && c <= '9'
}

/// Numeric value of a decimal digit.
pub open spec fn digit_value(c: char) -> int {
    c as int - '0' as int
}

/// Value of a sequence of decimal digits, most significant first.
pub open spec fn dec_value(s: Seq<char>) -> int
    decreases s.len(),
{
    if s.len() == 0 {
        0
    } else {
        dec_value(s.drop_last()) * 10 + digit_value(s.last())
    }
}

/// Whether every character of `s` is a decimal digit.
pub open spec fn all_digits(s: Seq<char>) -> bool {
    forall|i: int| 0 <= i < s.len() ==> is_dec_digit(#[trigger] s[i])
}

/// The digits of a numeral: everything after an optional leading `+`.
pub open spec fn digit_part(s: Seq<char>) -> Seq<char> {
    if s.len() > 0 && s[0] == '+' {
        s.skip(1)
    } else {
        s
    }
}

/// Whether `s` is a numeral that `usize` parsing accepts: an optional
/// leading `+`, then at least one digit, with a value that fits in `usize`.
pub open spec fn is_usize_numeral(s: Seq<char>) -> bool {
    &&& digit_part(s).len() > 0
    &&& all_digits(digit_part(s))
    &&& dec_value(digit_part(s)) <= usize::MAX
}

/// The value of a numeral.
pub open spec fn numeral_value(s: Seq<char>) -> int {
    dec_value(digit_part(s))
}

/// How many characters of `s` equal `c`.
pub open spec fn count_matches(s: Seq<char>, c: char) -> int
    decreases s.len(),
{
    if s.len() == 0 {
        0
    } else {
        count_matches(s.drop_last(), c) + if s.last() == c {
            1int
        } else {
            0int
        }
    }
}

/// Index of the first character of `s` equal to `c` (length of `s` if none).
pub open spec fn first_index(s: Seq<char>, c: char) -> int
    decreases s.len(),
{
    if s.len() == 0 {
        0
    } else if s[0] == c {
        0
    } else {
        1 + first_index(s.skip(1), c)
    }
}

proof fn lemma_dec_value_nonneg(s: Seq<char>)
    requires
        all_digits(s),
    ensures
        dec_value(s) >= 0,
    decreases s.len(),
{
    if s.len() > 0 {
        assert(all_digits(s.drop_last()));
        lemma_dec_value_nonneg(s.drop_last());
    }
}

/// A digit sequence is worth at least as much as any of its prefixes.
proof fn lemma_dec_value_prefix(s: Seq<char>, k: int)
    requires
        all_digits(s),
        0 <= k <= s.len(),
    ensures
        dec_value(s.subrange(0, k)) <= dec_value(s),
    decreases s.len(),
{
    if k == s.len() {
        assert(s.subrange(0, k) =~= s);
    } else {
        assert(all_digits(s.drop_last()));
        assert(s.subrange(0, k) =~= s.drop_last().subrange(0, k));
        lemma_dec_value_prefix(s.drop_last(), k);
        lemma_dec_value_nonneg(s.drop_last());
    }
}

/// Parse the characters of `s` in `[from, to)` as a `usize` numeral.
fn parse_usize_segment(s: &str, from: usize, to: usize) -> (r: Option<usize>)
    requires
        from <= to <= s@.len(),
    ensures
        ({
            let seg = s@.subrange(from as int, to as int);
            match r {
                Some(v) => is_usize_numeral(seg) && v == numeral_value(seg),
                None => !is_usize_numeral(seg),
            }
        }),
{
    let ghost seg = s@.subrange(from as int, to as int);
    let start: usize = if from < to && s.get_char(from) == '+' {
        from + 1
    } else {
        from
    };
    proof {
        assert(s@.subrange(start as int, to as int) =~= digit_part(seg));
    }
    let ghost digits = s@.subrange(start as int, to as int);
    if start == to {
        return None;
    }
    let mut val: usize = 0;
    let mut j: usize = start;
    while j < to
        invariant
            from <= start <= j <= to <= s@.len(),
            digits == s@.subrange(start as int, to as int),
            digits == digit_part(s@.subrange(from as int, to as int)),
            all_digits(digits.subrange(0, j - start)),
            val == dec_value(digits.subrange(0, j - start)),
        decreases to - j,
    {
        let c = s.get_char(j);
        let ghost prefix = digits.subrange(0, j - start);
        if !('0' <= c && c <= '9') {
            proof {
                assert(digits[j - start] == c);
                assert(!is_dec_digit(digits[j - start]));
            }
            return None;
        }
        let d: usize = (c as u32 as usize) - 48;
        proof {
            assert(digits.subrange(0, j + 1 - start).drop_last() =~= prefix);
            assert(digits.subrange(0, j + 1 - start).last() == c);
            assert(d == digit_value(c)) by {
                assert('0' as int == 48);
            }
        }
        let next = match val.checked_mul(10) {
            Some(p) => p.checked_add(d),
            None => None,
        };
        match next {
            Some(v) => {
                proof {
                    assert(dec_value(digits.subrange(0, j + 1 - start)) == val * 10 + d);
                }
                val = v;
            },
            None => {
                proof {
                    let ext = digits.subrange(0, j + 1 - start);
                    assert(dec_value(ext) == val * 10 + d);
                    if all_digits(digits) {
                        lemma_dec_value_prefix(digits, j + 1 - start);
                        assert(dec_value(digits) > usize::MAX);
                    }
                }
                return None;
            },
        }
        j = j + 1;
    }
    proof {
        assert(digits.subrange(0, to - start) =~= digits);
    }
    Some(val)
}

/// Split `s` at its single `x` separator and parse both parts as `usize`,
/// as in `"1024x768"`.
///
/// Returns `ExpectedFormat` unless `s` holds exactly one `x`, and
/// `ParsingError` when either part is not a `usize` numeral.
pub fn parse_points(s: &str) -> (r: Result<(usize, usize), ParseError>)
    ensures
        ({
            let sv = s@;
            let sep = first_index(sv, 'x');
            let left = sv.subrange(0, sep);
            let right = sv.subrange(sep + 1, sv.len() as int);
            &&& (r is Ok) == (count_matches(sv, 'x') == 1 && is_usize_numeral(left)
                && is_usize_numeral(right))
            &&& (r matches Err(ParseError::ExpectedFormat)) == (count_matches(sv, 'x') != 1)
            &&& r matches Ok((w, h)) ==> w == numeral_value(left) && h == numeral_value(right)
        }),
{
    let len = s.unicode_len();
    let mut cnt: usize = 0;
    let mut first: usize = len;
    let mut j: usize = 0;
    proof {
        lemma_first_index_nonneg(s@, 'x');
    }
    while j < len
        invariant
            0 <= j <= len == s@.len(),
            cnt == count_matches(s@.subrange(0, j as int), 'x'),
            cnt <= j,
            if cnt == 0 {
                first == len && first_index(s@, 'x') >= j
            } else {
                first == first_index(s@, 'x') && first < j && s@[first as int] == 'x'
            },
        decreases len - j,
    {
        let c = s.get_char(j);
        proof {
            assert(s@.subrange(0, j + 1).drop_last() =~= s@.subrange(0, j as int));
            assert(s@.subrange(0, j + 1).last() == s@[j as int]);
            if cnt == 0 && c == 'x' {
                lemma_first_index_found(s@, 'x', j as int);
            }
            if cnt == 0 && c != 'x' {
                lemma_first_index_past(s@, 'x', j as int);
            }
        }
        if c == 'x' {
            if cnt == 0 {
                first = j;
            }
            cnt = cnt + 1;
        }
        j = j + 1;
    }
    proof {
        assert(s@.subrange(0, len as int) =~= s@);
    }
    if cnt != 1 {
        return Err(ParseError::ExpectedFormat);
    }
    let w = match parse_usize_segment(s, 0, first) {
        Some(w) => w,
        None => {
            return Err(ParseError::ParsingError);
        },
    };
    let h = match parse_usize_segment(s, first + 1, len) {
        Some(h) => h,
        None => {
            return Err(ParseError::ParsingError);
        },
    };
    Ok((w, h))
}

/// If no `x` occurs before `j` and `s[j] == c`, then `j` is the first index.
proof fn lemma_first_index_found(s: Seq<char>, c: char, j: int)
    requires
        0 <= j < s.len(),
        s[j] == c,
        first_index(s, c) >= j,
    ensures
        first_index(s, c) == j,
    decreases j,
{
    if j > 0 {
        if s[0] == c {
        } else {
            lemma_first_index_found(s.skip(1), c, j - 1);
        }
    }
}

/// If the first index is not before `j` and `s[j] != c`, it is past `j`.
proof fn lemma_first_index_past(s: Seq<char>, c: char, j: int)
    requires
        0 <= j < s.len(),
        s[j] != c,
        first_index(s, c) >= j,
    ensures
        first_index(s, c) >= j + 1,
    decreases j,
{
    if j == 0 {
        assert(s[0] != c);
        if s.len() > 0 {
            assert(first_index(s, c) == 1 + first_index(s.skip(1), c));
            lemma_first_index_nonneg(s.skip(1), c);
        }
    } else {
        if s[0] == c {
        } else {
            lemma_first_index_past(s.skip(1), c, j - 1);
        }
    }
}

proof fn lemma_first_index_nonneg(s: Seq<char>, c: char)
    ensures
        first_index(s, c) >= 0,
    decreases s.len(),
{
    if s.len() > 0 && s[0] != c {
        lemma_first_index_nonneg(s.skip(1), c);
    }
}

} // verus!
