//! Text helpers: strings as sequences of characters, decimal and hexadecimal
//! numerals, and pieces of a delimited line.
use vstd::prelude::*;

verus! {

/// The characters of `s`, in order.
pub fn chars_of(s: &str) -> (out: Vec<char>)
    ensures
        out@ == s@,
{
    let mut out: Vec<char> = Vec::new();
    for c in it: s.chars()
        invariant
            it.seq() == s@,
            out@ == it.seq().take(it.index()),
    {
        out.push(c);
    }
    out
}

/// Trusted: `String::push` of the standard library appends one character to the
/// string and changes nothing else.
#[verifier::external_body]
fn push_char(s: &mut String, c: char)
    ensures
        final(s)@ == old(s)@.push(c),
{
    s.push(c);
}

/// The string made of the characters `chars[from..to]`.
pub fn text_of_range(chars: &Vec<char>, from: usize, to: usize) -> (out: String)
    requires
        from <= to <= chars@.len(),
    ensures
        out@ == chars@.subrange(from as int, to as int),
{
    let mut out = String::new();
    let mut i: usize = from;
    while i < to
        invariant
            from <= i <= to <= chars@.len(),
            out@ == chars@.subrange(from as int, i as int),
        decreases to - i,
    {
        push_char(&mut out, chars[i]);
        i = i + 1;
    }
    out
}

/// The string made of all of `chars`.
pub fn text_of(chars: &Vec<char>) -> (out: String)
    ensures
        out@ == chars@,
{
    let out = text_of_range(chars, 0, chars.len());
    assert(chars@.subrange(0, chars@.len() as int) == chars@);
    out
}

/// The character that writes the digit `d` (lower case above nine).
pub open spec fn digit_char(d: int) -> char {
    if d == 0 {
        '0'
    } else if d == 1 {
        '1'
    } else if d == 2 {
        '2'
    } else if d == 3 {
        '3'
    } else if d == 4 {
        '4'
    } else if d == 5 {
        '5'
    } else if d == 6 {
        '6'
    } else if d == 7 {
        '7'
    } else if d == 8 {
        '8'
    } else if d == 9 {
        '9'
    } else if d == 10 {
        'a'
    } else if d == 11 {
        'b'
    } else if d == 12 {
        'c'
    } else if d == 13 {
        'd'
    } else if d == 14 {
        'e'
    } else {
        'f'
    }
}

/// The value of `c` read as a digit of any radix up to sixteen, in either case.
pub open spec fn digit_value(c: char) -> Option<int> {
    if c == '0' {
        Some(0)
    } else if c == '1' {
        Some(1)
    } else if c == '2' {
        Some(2)
    } else if c == '3' {
        Some(3)
    } else if c == '4' {
        Some(4)
    } else if c == '5' {
        Some(5)
    } else if c == '6' {
        Some(6)
    } else if c == '7' {
        Some(7)
    } else if c == '8' {
        Some(8)
    } else if c == '9' {
        Some(9)
    } else if c == 'a' || c == 'A' {
        Some(10)
    } else if c == 'b' || c == 'B' {
        Some(11)
    } else if c == 'c' || c == 'C' {
        Some(12)
    } else if c == 'd' || c == 'D' {
        Some(13)
    } else if c == 'e' || c == 'E' {
        Some(14)
    } else if c == 'f' || c == 'F' {
        Some(15)
    } else {
        None
    }
}

/// Whether `c` is a digit of the given radix.
pub open spec fn is_digit(c: char, radix: int) -> bool {
    digit_value(c) matches Some(d) && d < radix
}

fn digit_of(c: char) -> (r: Option<u64>)
    ensures
        match r {
            Some(d) => digit_value(c) == Some(d as int) && d < 16,
            None => digit_value(c) is None,
        },
{
    match c {
        '0' => Some(0),
        '1' => Some(1),
        '2' => Some(2),
        '3' => Some(3),
        '4' => Some(4),
        '5' => Some(5),
        '6' => Some(6),
        '7' => Some(7),
        '8' => Some(8),
        '9' => Some(9),
        'a' | 'A' => Some(10),
        'b' | 'B' => Some(11),
        'c' | 'C' => Some(12),
        'd' | 'D' => Some(13),
        'e' | 'E' => Some(14),
        'f' | 'F' => Some(15),
        _ => None,
    }
}

fn char_of_digit(d: u64) -> (c: char)
    requires
        d < 16,
    ensures
        c == digit_char(d as int),
{
    if d == 0 {
        '0'
    } else if d == 1 {
        '1'
    } else if d == 2 {
        '2'
    } else if d == 3 {
        '3'
    } else if d == 4 {
        '4'
    } else if d == 5 {
        '5'
    } else if d == 6 {
        '6'
    } else if d == 7 {
        '7'
    } else if d == 8 {
        '8'
    } else if d == 9 {
        '9'
    } else if d == 10 {
        'a'
    } else if d == 11 {
        'b'
    } else if d == 12 {
        'c'
    } else if d == 13 {
        'd'
    } else if d == 14 {
        'e'
    } else {
        'f'
    }
}

/// The decimal numeral of `n`: no sign, no leading zero but for zero itself.
pub open spec fn decimal_text(n: nat) -> Seq<char>
    decreases n,
{
    if n < 10 {
        seq![digit_char(n as int)]
    } else {
        decimal_text(n / 10).push(digit_char((n % 10) as int))
    }
}

fn push_decimal(out: &mut Vec<char>, n: u64)
    ensures
        final(out)@ == old(out)@ + decimal_text(n as nat),
    decreases n,
{
    if n < 10 {
        out.push(char_of_digit(n));
        assert(out@ == old(out)@ + seq![digit_char(n as int)]);
    } else {
        push_decimal(out, n / 10);
        out.push(char_of_digit(n % 10));
        assert(out@ == old(out)@ + decimal_text(n as nat / 10).push(
            digit_char((n as nat % 10) as int),
        ));
    }
}

/// The decimal numeral of `n` as a string.
pub fn decimal_string(n: u64) -> (s: String)
    ensures
        s@ == decimal_text(n as nat),
{
    let mut digits: Vec<char> = Vec::new();
    push_decimal(&mut digits, n);
    assert(digits@ == decimal_text(n as nat));
    text_of(&digits)
}

/// The number that the digits `s` write in the given radix, most significant
/// first; `None` where a character is no digit of that radix. The empty
/// sequence writes zero.
pub open spec fn digits_value(s: Seq<char>, radix: int) -> Option<nat>
    decreases s.len(),
{
    if s.len() == 0 {
        Some(0)
    } else {
        match (digits_value(s.drop_last(), radix), digit_value(s.last())) {
            (Some(high), Some(d)) => if d < radix {
                Some((high * radix + d) as nat)
            } else {
                None
            },
            _ => None,
        }
    }
}

/// What the standard library's `from_str_radix` gives for an unsigned type whose
/// largest value is `max`: an optional `+`, then at least one digit, and a value
/// that fits.
pub open spec fn parse_unsigned(s: Seq<char>, radix: int, max: int) -> Option<nat> {
    let body = if s.len() > 0 && s[0] == '+' {
        s.skip(1)
    } else {
        s
    };
    if body.len() == 0 {
        None
    } else {
        match digits_value(body, radix) {
            Some(v) => if v <= max {
                Some(v)
            } else {
                None
            },
            None => None,
        }
    }
}

/// A longer numeral writes a number at least as large as any of its prefixes.
pub proof fn lemma_digits_value_prefix(s: Seq<char>, radix: int, k: int)
    requires
        2 <= radix,
        0 <= k <= s.len(),
        digits_value(s, radix) is Some,
    ensures
        digits_value(s.take(k), radix) is Some,
        digits_value(s.take(k), radix)->0 <= digits_value(s, radix)->0,
    decreases s.len(),
{
    if k == s.len() {
        assert(s.take(k) == s);
    } else {
        lemma_digits_value_prefix(s.drop_last(), radix, k);
        assert(s.drop_last().take(k) == s.take(k));
        let high = digits_value(s.drop_last(), radix)->0;
        let d = digit_value(s.last())->0;
        assert(high * radix >= high) by (nonlinear_arith)
            requires
                radix >= 2,
                high >= 0,
        ;
    }
}

/// A sequence with a character that is no digit writes no number.
pub proof fn lemma_digits_value_none(s: Seq<char>, radix: int, k: int)
    requires
        0 <= k < s.len(),
        !is_digit(s[k], radix),
    ensures
        digits_value(s, radix) is None,
    decreases s.len(),
{
    if k == s.len() - 1 {
    } else {
        lemma_digits_value_none(s.drop_last(), radix, k);
    }
}

/// Reads `chars[from..to]` as an unsigned number in the given radix, with `max`
/// as the largest value accepted.
pub fn parse_unsigned_range(chars: &Vec<char>, from: usize, to: usize, radix: u64, max: u64) -> (r:
    Option<u64>)
    requires
        from <= to <= chars@.len(),
        2 <= radix <= 16,
    ensures
        match r {
            Some(v) => parse_unsigned(chars@.subrange(from as int, to as int), radix as int, max as int)
                == Some(v as nat),
            None => parse_unsigned(chars@.subrange(from as int, to as int), radix as int, max as int)
                is None,
        },
{
    let ghost s = chars@.subrange(from as int, to as int);
    let mut start: usize = from;
    if from < to && chars[from] == '+' {
        start = from + 1;
    }
    let ghost body = chars@.subrange(start as int, to as int);
    proof {
        if start == from {
            assert(s.len() > 0 ==> s[0] == chars@[from as int]);
            assert(body == s);
        } else {
            assert(s[0] == '+');
            assert(body == s.skip(1));
        }
    }
    if start == to {
        return None;
    }
    let mut acc: u64 = 0;
    let mut i: usize = start;
    while i < to
        invariant
            start <= i <= to <= chars@.len(),
            2 <= radix <= 16,
            body == chars@.subrange(start as int, to as int),
            body.len() > 0,
            parse_unsigned(chars@.subrange(from as int, to as int), radix as int, max as int) == (
            match digits_value(body, radix as int) {
                Some(v) => if v <= max {
                    Some(v)
                } else {
                    None
                },
                None => None,
            }),
            digits_value(body.take(i - start), radix as int) == Some(acc as nat),
            acc <= max,
        decreases to - i,
    {
        let ghost prefix = body.take(i - start);
        let ghost next = body.take(i - start + 1);
        proof {
            assert(next.drop_last() == prefix);
            assert(next.last() == chars@[i as int]);
        }
        match digit_of(chars[i]) {
            None => {
                proof {
                    lemma_digits_value_none(body, radix as int, i - start);
                }
                return None;
            },
            Some(d) => {
                if d >= radix {
                    proof {
                        lemma_digits_value_none(body, radix as int, i - start);
                    }
                    return None;
                }
                if d > max || acc > (max - d) / radix {
                    proof {
                        assert(acc * radix + d > max) by (nonlinear_arith)
                            requires
                                d > max || (d <= max && acc > (max - d) / (radix as int)),
                                radix >= 2,
                                acc >= 0,
                                d >= 0,
                        ;
                        assert(digits_value(next, radix as int) == Some((acc * radix + d) as nat));
                        if digits_value(body, radix as int) is Some {
                            lemma_digits_value_prefix(body, radix as int, i - start + 1);
                        }
                    }
                    return None;
                }
                proof {
                    assert(acc * radix + d <= max) by (nonlinear_arith)
                        requires
                            d <= max,
                            acc <= (max - d) / (radix as int),
                            radix >= 2,
                            acc >= 0,
                            d >= 0,
                    ;
                }
                acc = acc * radix + d;
            },
        }
        i = i + 1;
    }
    proof {
        assert(body.take(to - start) == body);
    }
    Some(acc)
}

/// Reading back the decimal numeral of `n` gives `n`; the numeral is not empty
/// and holds decimal digits only.
pub proof fn lemma_decimal_text_parses(n: nat)
    ensures
        decimal_text(n).len() > 0,
        forall|i: int| 0 <= i < decimal_text(n).len() ==> is_digit(#[trigger] decimal_text(n)[i], 10),
        digits_value(decimal_text(n), 10) == Some(n),
    decreases n,
{
    if n < 10 {
        let s = decimal_text(n);
        assert(s.drop_last().len() == 0);
        assert(digits_value(s.drop_last(), 10) == Some(0nat));
    } else {
        lemma_decimal_text_parses(n / 10);
        let s = decimal_text(n);
        assert(s.drop_last() == decimal_text(n / 10));
        assert(s.last() == digit_char((n % 10) as int));
    }
}

/// The index of the first `c` in `s`, or the length of `s` where there is none.
pub open spec fn first_index(s: Seq<char>, c: char) -> int
    decreases s.len(),
{
    if s.len() == 0 {
        0
    } else if s[0] == c {
        0
    } else {
        1 + first_index(s.skip(1), c)
    }
}

/// The index of the last `c` in `s`, or -1 where there is none.
pub open spec fn last_index(s: Seq<char>, c: char) -> int
    decreases s.len(),
{
    if s.len() == 0 {
        -1
    } else if s.last() == c {
        s.len() - 1
    } else {
        last_index(s.drop_last(), c)
    }
}

/// Piece `n` (from zero) of `s` split at every `c`, counted from the front.
pub open spec fn split_piece(s: Seq<char>, c: char, n: nat) -> Option<Seq<char>>
    decreases n,
{
    let i = first_index(s, c);
    if n == 0 {
        Some(s.take(i))
    } else if i >= s.len() {
        None
    } else {
        split_piece(s.skip(i + 1), c, (n - 1) as nat)
    }
}

/// Piece `n` (from zero) of `s` split at every `c`, counted from the back.
pub open spec fn rsplit_piece(s: Seq<char>, c: char, n: nat) -> Option<Seq<char>>
    decreases n,
{
    let j = last_index(s, c);
    if n == 0 {
        Some(s.skip(j + 1))
    } else if j < 0 {
        None
    } else {
        rsplit_piece(s.take(j), c, (n - 1) as nat)
    }
}

/// Where the last `c` is: it holds `c`, and nothing behind it does.
pub proof fn lemma_last_index(s: Seq<char>, c: char)
    ensures
        -1 <= last_index(s, c) < s.len(),
        last_index(s, c) >= 0 ==> s[last_index(s, c)] == c,
        forall|k: int| last_index(s, c) < k < s.len() ==> s[k] != c,
    decreases s.len(),
{
    if s.len() > 0 && s.last() != c {
        lemma_last_index(s.drop_last(), c);
        assert forall|k: int| last_index(s, c) < k < s.len() implies s[k] != c by {
            if k < s.len() - 1 {
                assert(s.drop_last()[k] == s[k]);
            }
        }
    }
}

/// An index that holds `c` with none behind it is the last index of `c`.
pub proof fn lemma_last_index_is(s: Seq<char>, c: char, j: int)
    requires
        -1 <= j < s.len(),
        j >= 0 ==> s[j] == c,
        forall|k: int| j < k < s.len() ==> s[k] != c,
    ensures
        last_index(s, c) == j,
    decreases s.len(),
{
    if s.len() > 0 && s.last() != c {
        lemma_last_index_is(s.drop_last(), c, j);
    }
}

/// An index that holds `c` with none before it is the first index of `c`.
pub proof fn lemma_first_index_is(s: Seq<char>, c: char, i: int)
    requires
        0 <= i <= s.len(),
        i < s.len() ==> s[i] == c,
        forall|k: int| 0 <= k < i ==> s[k] != c,
    ensures
        first_index(s, c) == i,
    decreases s.len(),
{
    if s.len() > 0 && s[0] != c {
        assert forall|k: int| 0 <= k < i - 1 implies s.skip(1)[k] != c by {
            assert(s.skip(1)[k] == s[k + 1]);
        }
        lemma_first_index_is(s.skip(1), c, i - 1);
    }
}

/// Finds the first `c` in `chars[from..to]`: its index in `chars`, or `to`.
pub fn find_first(chars: &Vec<char>, from: usize, to: usize, c: char) -> (i: usize)
    requires
        from <= to <= chars@.len(),
    ensures
        from <= i <= to,
        i - from == first_index(chars@.subrange(from as int, to as int), c),
{
    let ghost s = chars@.subrange(from as int, to as int);
    let mut i: usize = from;
    while i < to && chars[i] != c
        invariant
            from <= i <= to <= chars@.len(),
            s == chars@.subrange(from as int, to as int),
            forall|k: int| 0 <= k < i - from ==> s[k] != c,
        decreases to - i,
    {
        i = i + 1;
    }
    proof {
        lemma_first_index_is(s, c, i - from);
    }
    i
}

/// Finds the last `c` in `chars[..to]`: one past its index, or zero where there
/// is none.
pub fn find_last(chars: &Vec<char>, to: usize, c: char) -> (i: usize)
    requires
        to <= chars@.len(),
    ensures
        i <= to,
        i - 1 == last_index(chars@.take(to as int), c),
{
    let ghost s = chars@.take(to as int);
    let mut i: usize = to;
    while i > 0 && chars[i - 1] != c
        invariant
            i <= to <= chars@.len(),
            s == chars@.take(to as int),
            forall|k: int| i <= k < to ==> s[k] != c,
        decreases i,
    {
        i = i - 1;
    }
    proof {
        lemma_last_index_is(s, c, i - 1);
    }
    i
}

/// Whether `needle` occurs in `s` as a run of neighbouring characters.
pub open spec fn contains_text(s: Seq<char>, needle: Seq<char>) -> bool {
    exists|i: int| occurs_at(s, needle, i)
}

/// Whether `needle` occurs in `s` at index `i`.
pub open spec fn occurs_at(s: Seq<char>, needle: Seq<char>, i: int) -> bool {
    0 <= i && i + needle.len() <= s.len() && s.subrange(i, i + needle.len()) == needle
}

fn matches_at(chars: &Vec<char>, needle: &Vec<char>, at: usize) -> (r: bool)
    requires
        at + needle@.len() <= chars@.len(),
    ensures
        r == occurs_at(chars@, needle@, at as int),
{
    let mut k: usize = 0;
    while k < needle.len()
        invariant
            k <= needle.len(),
            at + needle.len() <= chars.len(),
            forall|j: int| 0 <= j < k ==> chars@[at + j] == needle@[j],
        decreases needle@.len() - k,
    {
        if chars[at + k] != needle[k] {
            proof {
                let sub = chars@.subrange(at as int, at + needle@.len());
                assert(sub[k as int] == chars@[at + k]);
            }
            return false;
        }
        k = k + 1;
    }
    assert(chars@.subrange(at as int, at + needle@.len()) == needle@);
    true
}

/// Whether `needle` occurs in `chars`.
pub fn contains_chars(chars: &Vec<char>, needle: &Vec<char>) -> (r: bool)
    ensures
        r == contains_text(chars@, needle@),
{
    if needle.len() > chars.len() {
        return false;
    }
    let last: usize = chars.len() - needle.len();
    let mut i: usize = 0;
    loop
        invariant
            i <= last,
            last == chars.len() - needle.len(),
            forall|j: int| 0 <= j < i ==> !occurs_at(chars@, needle@, j),
        decreases last - i,
    {
        if matches_at(chars, needle, i) {
            return true;
        }
        if i == last {
            return false;
        }
        i = i + 1;
    }
}

} // verus!
