//! Numbers and markers in the text of a data sheet: integers in radix 10 and
//! 16 with an optional sign, prefixes, and the search for a marker.

use vstd::prelude::*;

verus! {

/// The characters of `s`.
pub fn to_chars(s: &str) -> (chars: Vec<char>)
    ensures
        chars@ == s@,
{
    let mut chars: Vec<char> = Vec::new();
    for c in it: s.chars()
        invariant
            it.seq() == s@,
            chars@ == it.seq().take(it.index() as int),
    {
        chars.push(c);
    }
    chars
}

/// The value of `c` as a digit of radix 10 or 16.
pub open spec fn digit_of(c: char, radix: u32) -> Option<int> {
    if '0' <= c <= '9' {
        Some(c as int - '0' as int)
    } else if radix == 16 && 'a' <= c <= 'f' {
        Some(c as int - 'a' as int + 10)
    } else if radix == 16 && 'A' <= c <= 'F' {
        Some(c as int - 'A' as int + 10)
    } else {
        None
    }
}

/// The number that the digits `s` write in radix 10 or 16; none where a
/// character is no digit. No digits write 0.
pub open spec fn digits_value(s: Seq<char>, radix: u32) -> Option<int>
    decreases s.len(),
{
    if s.len() == 0 {
        Some(0)
    } else {
        match (digits_value(s.drop_last(), radix), digit_of(s.last(), radix)) {
            (Some(high), Some(low)) => Some(high * radix + low),
            _ => None,
        }
    }
}

/// The integer between `min` and `max` that `s` writes in radix 10 or 16: an
/// optional `+`, or `-` where `min` is negative, and then at least one digit.
/// None where `s` is not of this form or the number is out of range.
pub open spec fn integer_of(s: Seq<char>, radix: u32, min: int, max: int) -> Option<int> {
    if s.len() == 0 {
        None
    } else {
        let negative = s[0] == '-' && min < 0;
        let digits = if s[0] == '+' || negative {
            s.skip(1)
        } else {
            s
        };
        if digits.len() == 0 {
            None
        } else {
            match digits_value(digits, radix) {
                Some(magnitude) => {
                    let number = if negative {
                        -magnitude
                    } else {
                        magnitude
                    };
                    if min <= number <= max {
                        Some(number)
                    } else {
                        None
                    }
                },
                None => None,
            }
        }
    }
}

/// Whether `s` begins with `prefix`.
pub open spec fn has_prefix(s: Seq<char>, prefix: Seq<char>) -> bool {
    prefix.len() <= s.len() && s.take(prefix.len() as int) == prefix
}

/// Whether `marker` occurs in `s`.
pub open spec fn has_marker(s: Seq<char>, marker: Seq<char>) -> bool {
    exists|at: int| 0 <= at && #[trigger] has_prefix(s.skip(at), marker) && at <= s.len()
}

/// `s` without every leading repetition of `prefix`.
pub open spec fn without_leading(s: Seq<char>, prefix: Seq<char>) -> Seq<char>
    decreases s.len(),
{
    if prefix.len() > 0 && has_prefix(s, prefix) {
        without_leading(s.skip(prefix.len() as int), prefix)
    } else {
        s
    }
}

/// The marker of a hexadecimal number.
pub open spec fn hex_marker() -> Seq<char> {
    seq!['0', 'x']
}

/// The marker of a hexadecimal number.
pub fn hex_prefix() -> (marker: Vec<char>)
    ensures
        marker@ == hex_marker(),
{
    let marker: Vec<char> = vec!['0', 'x'];
    marker
}

/// The value of `c` as a digit of radix 10 or 16.
pub fn digit(c: char, radix: u32) -> (value: Option<u64>)
    requires
        radix == 10 || radix == 16,
    ensures
        match value {
            Some(d) => digit_of(c, radix) == Some(d as int) && d < radix,
            None => digit_of(c, radix) is None,
        },
{
    if '0' <= c && c <= '9' {
        Some((c as u32 - '0' as u32) as u64)
    } else if radix == 16 && 'a' <= c && c <= 'f' {
        Some((c as u32 - 'a' as u32 + 10) as u64)
    } else if radix == 16 && 'A' <= c && c <= 'F' {
        Some((c as u32 - 'A' as u32 + 10) as u64)
    } else {
        None
    }
}

/// Digits write a number that is not negative, and no less than what any of
/// their beginnings writes.
pub proof fn lemma_digits_grow(s: Seq<char>, radix: u32, n: int)
    requires
        radix == 10 || radix == 16,
        0 <= n <= s.len(),
        digits_value(s, radix) is Some,
    ensures
        digits_value(s.take(n), radix) is Some,
        0 <= digits_value(s.take(n), radix)->0 <= digits_value(s, radix)->0,
    decreases s.len() - n,
{
    if n == s.len() {
        assert(s.take(n) =~= s);
        lemma_digits_positive(s, radix);
    } else {
        lemma_digits_grow(s, radix, n + 1);
        let longer = s.take(n + 1);
        assert(longer.drop_last() =~= s.take(n));
        lemma_digits_positive(s.take(n), radix);
    }
}

/// Digits write a number that is not negative.
pub proof fn lemma_digits_positive(s: Seq<char>, radix: u32)
    requires
        radix == 10 || radix == 16,
        digits_value(s, radix) is Some,
    ensures
        digits_value(s, radix)->0 >= 0,
    decreases s.len(),
{
    if s.len() > 0 {
        lemma_digits_positive(s.drop_last(), radix);
    }
}

/// Where a character is no digit, the whole writes no number.
pub proof fn lemma_digits_fail(s: Seq<char>, radix: u32, at: int)
    requires
        0 <= at < s.len(),
        digit_of(s[at], radix) is None,
    ensures
        digits_value(s, radix) is None,
    decreases s.len(),
{
    if at < s.len() - 1 {
        lemma_digits_fail(s.drop_last(), radix, at);
    }
}

/// The integer between `min` and `max` that the characters of `s` from `from`
/// on write in radix 10 or 16.
pub fn parse_integer(s: &Vec<char>, from: usize, radix: u32, min: i64, max: i64) -> (number: Option<
    i64,
>)
    requires
        radix == 10 || radix == 16,
        from <= s@.len(),
        -0x1_0000_0000 <= min <= 0 <= max <= 0x1_0000_0000,
    ensures
        match number {
            Some(n) => integer_of(s@.skip(from as int), radix, min as int, max as int) == Some(
                n as int,
            ),
            None => integer_of(s@.skip(from as int), radix, min as int, max as int) is None,
        },
{
    let ghost text = s@.skip(from as int);
    if from == s.len() {
        return None;
    }
    let negative = s[from] == '-' && min < 0;
    let start: usize = if s[from] == '+' || negative {
        from + 1
    } else {
        from
    };
    let ghost digits = s@.skip(start as int);
    assert(digits =~= if text[0] == '+' || negative {
        text.skip(1)
    } else {
        text
    });
    if start == s.len() {
        return None;
    }
    let limit: u64 = if negative {
        (-min) as u64
    } else {
        max as u64
    };
    let mut magnitude: u64 = 0;
    let mut i: usize = start;
    while i < s.len()
        invariant
            start <= i <= s@.len(),
            radix == 10 || radix == 16,
            -0x1_0000_0000 <= min <= 0 <= max <= 0x1_0000_0000,
            text == s@.skip(from as int),
            text.len() > 0,
            negative == (text[0] == '-' && min < 0),
            digits == s@.skip(start as int),
            digits.len() > 0,
            digits == if text[0] == '+' || negative {
                text.skip(1)
            } else {
                text
            },
            limit == if negative {
                -min
            } else {
                max as int
            },
            digits_value(digits.take(i - start), radix) == Some(magnitude as int),
            magnitude <= limit <= 0x1_0000_0000,
        decreases s@.len() - i,
    {
        let ghost prefix = digits.take(i - start + 1);
        assert(prefix.drop_last() =~= digits.take(i - start));
        match digit(s[i], radix) {
            Some(d) => {
                assert(magnitude * radix <= 0x10_0000_0000) by (nonlinear_arith)
                    requires
                        magnitude <= 0x1_0000_0000,
                        radix <= 16,
                ;
                let next: u64 = magnitude * radix as u64 + d;
                if next > limit {
                    proof {
                        if digits_value(digits, radix) is Some {
                            lemma_digits_grow(digits, radix, i - start + 1);
                        }
                    }
                    return None;
                }
                magnitude = next;
            },
            None => {
                proof {
                    lemma_digits_fail(digits, radix, i - start);
                }
                return None;
            },
        }
        i = i + 1;
    }
    assert(digits.take(i - start) =~= digits);
    if negative {
        Some(-(magnitude as i64))
    } else {
        Some(magnitude as i64)
    }
}

/// Whether the characters of `s` from `at` on begin with `prefix`.
pub fn starts_with_at(s: &Vec<char>, at: usize, prefix: &Vec<char>) -> (found: bool)
    requires
        at <= s@.len(),
    ensures
        found == has_prefix(s@.skip(at as int), prefix@),
{
    if prefix.len() > s.len() - at {
        return false;
    }
    let ghost rest = s@.skip(at as int);
    let mut i: usize = 0;
    while i < prefix.len()
        invariant
            i <= prefix@.len() <= s@.len() - at,
            at <= s@.len() <= usize::MAX,
            rest == s@.skip(at as int),
            rest.take(i as int) == prefix@.take(i as int),
        decreases prefix@.len() - i,
    {
        if s[at + i] != prefix[i] {
            return false;
        }
        i = i + 1;
    }
    assert(prefix@.take(i as int) =~= prefix@);
    true
}

/// Whether `marker` occurs in `s`.
pub fn contains(s: &Vec<char>, marker: &Vec<char>) -> (found: bool)
    ensures
        found == has_marker(s@, marker@),
{
    let mut at: usize = 0;
    while at < s.len()
        invariant
            at <= s@.len(),
            forall|j: int| 0 <= j < at ==> !#[trigger] has_prefix(s@.skip(j), marker@),
        decreases s@.len() - at,
    {
        if starts_with_at(s, at, marker) {
            return true;
        }
        at = at + 1;
    }
    starts_with_at(s, at, marker)
}

/// The position in `s` behind every leading repetition of `prefix`.
pub fn skip_leading(s: &Vec<char>, prefix: &Vec<char>) -> (from: usize)
    ensures
        from <= s@.len(),
        s@.skip(from as int) == without_leading(s@, prefix@),
{
    let mut from: usize = 0;
    assert(s@.skip(0) =~= s@);
    if prefix.len() == 0 {
        return 0;
    }
    assert(s@.len() == s.len());
    while starts_with_at(s, from, prefix)
        invariant
            from <= s@.len() <= usize::MAX,
            prefix@.len() > 0,
            without_leading(s@.skip(from as int), prefix@) == without_leading(s@, prefix@),
        decreases s@.len() - from,
    {
        assert(s@.skip(from as int).skip(prefix@.len() as int) =~= s@.skip(from + prefix@.len()));
        from = from + prefix.len();
    }
    from
}

} // verus!
