//! Character-level helpers shared by the parsers and the command builders.
//!
//! Every function works on sequences of `char`; the specifications are
//! stated over `Seq<char>`, which is also the view of `str` and `String`.

use vstd::prelude::*;
use vstd::slice::{slice_subrange, slice_to_vec};

verus! {

// ---------------------------------------------------------------------
// Strings and character vectors
// ---------------------------------------------------------------------

/// Appends one character to a string.
///
/// Trusted: wraps `String::push`, which is documented to append the given
/// character to the end of the string.
#[verifier::external_body]
pub(crate) fn push_char(s: &mut String, c: char)
    ensures
        final(s)@ == old(s)@.push(c),
{
    s.push(c)
}

/// The characters of `s`, in order.
pub fn chars_of(s: &str) -> (v: Vec<char>)
    ensures
        v@ == s@,
{
    let mut v: Vec<char> = Vec::new();
    for c in it: s.chars()
        invariant
            v@ == it.seq().take(it.index() as int),
            it.seq() == s@,
    {
        v.push(c);
    }
    v
}

/// The string made of the characters of `v`, in order.
pub fn string_of(v: &Vec<char>) -> (s: String)
    ensures
        s@ == v@,
{
    let mut s = String::new();
    let mut i: usize = 0;
    while i < v.len()
        invariant
            i <= v.len(),
            s@ == v@.take(i as int),
        decreases v.len() - i,
    {
        push_char(&mut s, v[i]);
        assert(v@.take(i + 1) == v@.take(i as int).push(v@[i as int]));
        i += 1;
    }
    assert(v@.take(v.len() as int) == v@);
    s
}

/// Whether two texts hold the same characters.
pub fn same_text(a: &str, b: &str) -> (same: bool)
    ensures
        same == (a@ == b@),
{
    let x = a.to_owned();
    let y = b.to_owned();
    x == y
}

/// The characters of `v` from position `from` up to, not including, `to`.
pub(crate) fn copy_range(v: &Vec<char>, from: usize, to: usize) -> (r: Vec<char>)
    requires
        from <= to <= v.len(),
    ensures
        r@ == v@.subrange(from as int, to as int),
{
    slice_to_vec(slice_subrange(v.as_slice(), from, to))
}

/// The views of a vector of character vectors, element by element.
pub open spec fn views(v: Seq<Vec<char>>) -> Seq<Seq<char>> {
    Seq::new(v.len(), |i: int| v[i]@)
}

// ---------------------------------------------------------------------
// Decimal numbers
// ---------------------------------------------------------------------

/// An ASCII decimal digit.
pub open spec fn is_digit(c: char) -> bool {
    '0' <= c && c <= '9'
}

/// The value of an ASCII decimal digit.
pub open spec fn digit_value(c: char) -> nat {
    (c as u32 - '0' as u32) as nat
}

/// Every character of `s` is a decimal digit.
pub open spec fn all_digits(s: Seq<char>) -> bool {
    forall|i: int| 0 <= i < s.len() ==> is_digit(#[trigger] s[i])
}

/// The number that the digit string `s` writes in base ten.
pub open spec fn decimal_value(s: Seq<char>) -> nat
    decreases s.len(),
{
    if s.len() == 0 {
        0
    } else {
        decimal_value(s.drop_last()) * 10 + digit_value(s.last())
    }
}

/// What is left of `s` once an optional leading `+` is taken off.
pub open spec fn after_plus(s: Seq<char>) -> Seq<char> {
    if s.len() > 0 && s[0] == '+' {
        s.drop_first()
    } else {
        s
    }
}

/// The unsigned number that `s` writes, if it is an optional `+` followed by
/// one or more decimal digits and the number is at most `max`.
pub open spec fn parse_unsigned(s: Seq<char>, max: nat) -> Option<nat> {
    let d = after_plus(s);
    if d.len() > 0 && all_digits(d) && decimal_value(d) <= max {
        Some(decimal_value(d))
    } else {
        None
    }
}

/// `parse_unsigned` for 64-bit numbers.
pub open spec fn parse_u64_spec(s: Seq<char>) -> Option<u64> {
    match parse_unsigned(s, u64::MAX as nat) {
        Some(n) => Some(n as u64),
        None => None,
    }
}

/// `parse_unsigned` for 16-bit numbers.
pub open spec fn parse_u16_spec(s: Seq<char>) -> Option<u16> {
    match parse_unsigned(s, u16::MAX as nat) {
        Some(n) => Some(n as u16),
        None => None,
    }
}

/// A prefix of a digit string never writes a larger number than the whole.
pub proof fn lemma_decimal_value_prefix(s: Seq<char>, k: int)
    requires
        0 <= k <= s.len(),
    ensures
        decimal_value(s.take(k)) <= decimal_value(s),
    decreases s.len(),
{
    if k == s.len() {
        assert(s.take(k) == s);
    } else {
        assert(s.drop_last().take(k) == s.take(k));
        lemma_decimal_value_prefix(s.drop_last(), k);
    }
}

/// The value of `c` if it is a decimal digit.
pub fn digit_of(c: char) -> (d: Option<u8>)
    ensures
        d is Some <==> is_digit(c),
        d matches Some(x) ==> x as nat == digit_value(c) && x <= 9,
{
    if c >= '0' && c <= '9' {
        let x: u32 = c as u32 - '0' as u32;
        Some(x as u8)
    } else {
        None
    }
}

/// Reads an unsigned 64-bit decimal number: an optional `+`, then digits
/// only. Anything else, and a number that does not fit, gives `None`.
pub fn parse_u64(s: &Vec<char>) -> (r: Option<u64>)
    ensures
        r == parse_u64_spec(s@),
{
    let n = s.len();
    let start: usize = if n > 0 && s[0] == '+' {
        1
    } else {
        0
    };
    let ghost d = after_plus(s@);
    assert(d == s@.subrange(start as int, n as int));
    if start == n {
        return None;
    }
    let mut acc: u64 = 0;
    let mut i: usize = start;
    while i < n
        invariant
            start <= i <= n,
            n == s.len(),
            d == after_plus(s@),
            d == s@.subrange(start as int, n as int),
            all_digits(d.take(i - start)),
            acc == decimal_value(d.take(i - start)),
        decreases n - i,
    {
        let ghost k = i - start;
        assert(d.take(k + 1).drop_last() == d.take(k));
        assert(d.take(k + 1).last() == d[k]);
        match digit_of(s[i]) {
            None => {
                assert(!is_digit(d[k]));
                return None;
            },
            Some(x) => {
                if acc > (u64::MAX - x as u64) / 10 {
                    proof {
                        lemma_decimal_value_prefix(d, k + 1);
                    }
                    return None;
                }
                acc = acc * 10 + x as u64;
                i += 1;
            },
        }
    }
    assert(d.take(n - start) == d);
    Some(acc)
}

/// Reads an unsigned 16-bit decimal number, under the rules of `parse_u64`.
pub fn parse_u16(s: &Vec<char>) -> (r: Option<u16>)
    ensures
        r == parse_u16_spec(s@),
{
    match parse_u64(s) {
        Some(n) => if n <= 65535 {
            Some(n as u16)
        } else {
            None
        },
        None => None,
    }
}

/// The character that writes the digit `d`.
pub open spec fn digit_char(d: nat) -> char {
    (('0' as u32) + d) as char
}

/// The shortest decimal writing of `n`.
pub open spec fn decimal_digits(n: nat) -> Seq<char>
    decreases n,
{
    if n < 10 {
        seq![digit_char(n)]
    } else {
        decimal_digits(n / 10).push(digit_char(n % 10))
    }
}

/// The decimal writing of `m`, or nothing where `m` is zero.
pub open spec fn leading_digits(m: nat) -> Seq<char> {
    if m == 0 {
        Seq::empty()
    } else {
        decimal_digits(m)
    }
}

fn char_of_digit(d: u128) -> (c: char)
    requires
        d < 10,
    ensures
        c == digit_char(d as nat),
        is_digit(c),
        digit_value(c) == d,
{
    ((48 + d) as u8) as char
}

/// Appends the decimal writing of `n` to `out`.
pub fn push_decimal(out: &mut String, n: u64)
    ensures
        final(out)@ == old(out)@ + decimal_digits(n as nat),
{
    push_wide_decimal(out, n as u128)
}

/// Appends the decimal writing of a number of up to 128 bits to `out`.
pub fn push_wide_decimal(out: &mut String, n: u128)
    ensures
        final(out)@ == old(out)@ + decimal_digits(n as nat),
{
    let mut rev: Vec<char> = Vec::new();
    rev.push(char_of_digit(n % 10));
    let mut m: u128 = n / 10;
    assert(decimal_digits(n as nat) == leading_digits(m as nat) + rev@.reverse());
    while m > 0
        invariant
            rev.len() > 0,
            decimal_digits(n as nat) == leading_digits(m as nat) + rev@.reverse(),
        decreases m,
    {
        let ghost before = rev@;
        rev.push(char_of_digit(m % 10));
        assert(rev@.reverse() == seq![digit_char((m % 10) as nat)] + before.reverse());
        assert(leading_digits(m as nat) == leading_digits((m / 10) as nat).push(
            digit_char((m % 10) as nat),
        ));
        m = m / 10;
    }
    let mut i: usize = rev.len();
    let ghost digits = rev@.reverse();
    while i > 0
        invariant
            i <= rev.len(),
            digits == rev@.reverse(),
            out@ == old(out)@ + digits.take(rev.len() - i),
        decreases i,
    {
        i -= 1;
        push_char(out, rev[i]);
        assert(digits.take(rev.len() - i) == digits.take(rev.len() - i - 1).push(rev@[i as int]));
    }
    assert(digits.take(rev.len() as int) == digits);
}

// ---------------------------------------------------------------------
// Numbers with a fraction
// ---------------------------------------------------------------------

/// A plus or a minus sign.
pub open spec fn is_sign(c: char) -> bool {
    c == '+' || c == '-'
}

/// What is left of `s` once an optional leading sign is taken off.
pub open spec fn unsigned(s: Seq<char>) -> Seq<char> {
    if s.len() > 0 && is_sign(s[0]) {
        s.drop_first()
    } else {
        s
    }
}

/// The number of decimal digits that `s` begins with.
pub open spec fn digits_ahead(s: Seq<char>) -> nat
    decreases s.len(),
{
    if s.len() > 0 && is_digit(s[0]) {
        1 + digits_ahead(s.drop_first())
    } else {
        0
    }
}

/// An exponent: the letter `e`, small or capital, an optional sign, and one
/// or more digits.
pub open spec fn is_exponent(s: Seq<char>) -> bool {
    &&& s.len() >= 2
    &&& (s[0] == 'e' || s[0] == 'E')
    &&& unsigned(s.skip(1)).len() > 0
    &&& all_digits(unsigned(s.skip(1)))
}

/// What follows the digits before the point, the point and the digits
/// behind it.
pub open spec fn after_mantissa(s: Seq<char>) -> Seq<char> {
    let rest = s.skip(digits_ahead(s) as int);
    if rest.len() > 0 && rest[0] == '.' {
        rest.skip(1 + digits_ahead(rest.skip(1)) as int)
    } else {
        rest
    }
}

/// The number of digits of the mantissa, before and behind the point.
pub open spec fn mantissa_digits(s: Seq<char>) -> nat {
    let rest = s.skip(digits_ahead(s) as int);
    if rest.len() > 0 && rest[0] == '.' {
        digits_ahead(s) + digits_ahead(rest.skip(1))
    } else {
        digits_ahead(s)
    }
}

/// An unsigned decimal number: digits with at most one point among them, at
/// least one digit in all, and an optional exponent behind them.
pub open spec fn is_decimal_number(s: Seq<char>) -> bool {
    mantissa_digits(s) > 0 && (after_mantissa(s).len() == 0 || is_exponent(after_mantissa(s)))
}

/// The small letter of a capital ASCII letter; any other character itself.
pub open spec fn lowered(c: char) -> char {
    if 'A' <= c && c <= 'Z' {
        ((c as u32) + 32) as char
    } else {
        c
    }
}

/// One of the words for infinity and for what is not a number, in small or
/// capital letters.
pub open spec fn is_special_number(s: Seq<char>) -> bool {
    let word = s.map_values(|c: char| lowered(c));
    word == "inf"@ || word == "infinity"@ || word == "nan"@
}

/// A number in the grammar of the standard parser of floating-point
/// numbers: an optional sign, then a decimal number or one of the special
/// words.
pub open spec fn is_float_text(s: Seq<char>) -> bool {
    is_special_number(unsigned(s)) || is_decimal_number(unsigned(s))
}

fn count_digits(s: &Vec<char>, from: usize) -> (n: usize)
    requires
        from <= s.len(),
    ensures
        n == digits_ahead(s@.skip(from as int)),
        from + n <= s.len(),
{
    let mut i: usize = from;
    while i < s.len() && digit_of(s[i]).is_some()
        invariant
            from <= i <= s.len(),
            digits_ahead(s@.skip(from as int)) == (i - from) + digits_ahead(s@.skip(i as int)),
        decreases s.len() - i,
    {
        assert(s@.skip(i as int)[0] == s@[i as int]);
        assert(s@.skip(i as int).drop_first() == s@.skip(i + 1));
        i += 1;
    }
    proof {
        if i < s.len() {
            assert(s@.skip(i as int)[0] == s@[i as int]);
        }
    }
    i - from
}

fn exponent_at(s: &Vec<char>, from: usize) -> (b: bool)
    requires
        from <= s.len(),
    ensures
        b == is_exponent(s@.skip(from as int)),
{
    let n = s.len();
    let ghost tail = s@.skip(from as int);
    if n - from < 2 {
        return false;
    }
    assert(tail[0] == s@[from as int]);
    assert(tail.skip(1) == s@.skip(from + 1));
    if s[from] != 'e' && s[from] != 'E' {
        return false;
    }
    assert(s@.skip(from + 1)[0] == s@[from + 1]);
    let start: usize = if s[from + 1] == '+' || s[from + 1] == '-' {
        from + 2
    } else {
        from + 1
    };
    assert(unsigned(s@.skip(from + 1)) == s@.skip(start as int)) by {
        assert(s@.skip(from + 1).drop_first() == s@.skip(from + 2));
    }
    let digits = count_digits(s, start);
    proof {
        lemma_digits_ahead(s@.skip(start as int));
    }
    start < n && start + digits == n
}

/// The digits that a text begins with are digits, and what follows them is
/// none; a text is all digits just when it begins with as many digits as it
/// has characters.
pub proof fn lemma_digits_ahead(s: Seq<char>)
    ensures
        digits_ahead(s) <= s.len(),
        all_digits(s.take(digits_ahead(s) as int)),
        digits_ahead(s) < s.len() ==> !is_digit(s[digits_ahead(s) as int]),
        all_digits(s) <==> digits_ahead(s) == s.len(),
    decreases s.len(),
{
    if s.len() > 0 && is_digit(s[0]) {
        let rest = s.drop_first();
        lemma_digits_ahead(rest);
        let n = digits_ahead(s) as int;
        assert forall|i: int| 0 <= i < n implies is_digit(#[trigger] s.take(n)[i]) by {
            if i > 0 {
                assert(s.take(n)[i] == rest.take(n - 1)[i - 1]);
            }
        }
        if all_digits(rest) {
            assert forall|i: int| 0 <= i < s.len() implies is_digit(#[trigger] s[i]) by {
                if i > 0 {
                    assert(s[i] == rest[i - 1]);
                }
            }
        }
        if all_digits(s) {
            assert forall|i: int| 0 <= i < rest.len() implies is_digit(#[trigger] rest[i]) by {
                assert(rest[i] == s[i + 1]);
            }
        }
        if n < s.len() {
            assert(s[n] == rest[n - 1]);
        }
    } else {
        assert(s.take(0).len() == 0);
        if s.len() > 0 {
            assert(!is_digit(s[0]));
        }
    }
}

/// The small letter of a capital ASCII letter; any other character itself.
pub fn lower(c: char) -> (l: char)
    ensures
        l == lowered(c),
{
    if c >= 'A' && c <= 'Z' {
        ((c as u8) + 32) as char
    } else {
        c
    }
}

fn special_number(s: &Vec<char>, from: usize) -> (b: bool)
    requires
        from <= s.len(),
    ensures
        b == is_special_number(s@.skip(from as int)),
{
    let ghost body = s@.skip(from as int);
    let mut word: Vec<char> = Vec::new();
    let mut i: usize = from;
    while i < s.len()
        invariant
            from <= i <= s.len(),
            word.len() == i - from,
            forall|k: int| 0 <= k < i - from ==> word@[k] == lowered(s@[from + k]),
        decreases s.len() - i,
    {
        word.push(lower(s[i]));
        i += 1;
    }
    assert(word@ =~= s@.skip(from as int).map_values(|c: char| lowered(c)));
    let word = string_of(&word);
    same_text(word.as_str(), "inf") || same_text(word.as_str(), "infinity") || same_text(
        word.as_str(),
        "nan",
    )
}

/// Whether `s` is a number in the grammar of the standard parser of
/// floating-point numbers.
pub fn float_text(s: &Vec<char>) -> (b: bool)
    ensures
        b == is_float_text(s@),
{
    let n = s.len();
    let start: usize = if n > 0 && (s[0] == '+' || s[0] == '-') {
        1
    } else {
        0
    };
    let ghost body = unsigned(s@);
    assert(body == s@.skip(start as int));
    if special_number(s, start) {
        return true;
    }
    let whole = count_digits(s, start);
    let point = start + whole;
    assert(body.skip(whole as int) == s@.skip(point as int));
    let mut digits = whole;
    let mut tail = point;
    if point < n && s[point] == '.' {
        assert(s@.skip(point as int)[0] == s@[point as int]);
        assert(s@.skip(point as int).skip(1) == s@.skip(point + 1));
        let fraction = count_digits(s, point + 1);
        digits = whole + fraction;
        tail = point + 1 + fraction;
        assert(s@.skip(point as int).skip(1 + fraction) == s@.skip(tail as int));
    } else {
        proof {
            if point < n {
                assert(s@.skip(point as int)[0] == s@[point as int]);
            }
        }
    }
    assert(after_mantissa(body) == s@.skip(tail as int));
    assert(mantissa_digits(body) == digits);
    if digits == 0 {
        return false;
    }
    tail == n || exponent_at(s, tail)
}

// ---------------------------------------------------------------------
// Splitting
// ---------------------------------------------------------------------

/// `sep` stands in `s` at position `i`.
pub open spec fn matches_at(s: Seq<char>, sep: Seq<char>, i: int) -> bool {
    0 <= i && i + sep.len() <= s.len() && s.subrange(i, i + sep.len()) == sep
}

/// The pieces of `s` from `start` on, where no occurrence of `sep` begins in
/// `start..i`. Occurrences are taken from left to right and do not overlap.
pub open spec fn pieces_from(s: Seq<char>, sep: Seq<char>, start: int, i: int) -> Seq<Seq<char>>
    decreases s.len() - i,
{
    if sep.len() == 0 || start < 0 || i < start || i + sep.len() > s.len() {
        seq![s.subrange(start, s.len() as int)]
    } else if matches_at(s, sep, i) {
        seq![s.subrange(start, i)] + pieces_from(s, sep, i + sep.len(), i + sep.len())
    } else {
        pieces_from(s, sep, start, i + 1)
    }
}

/// The pieces that the occurrences of `sep` cut `s` into. There is always at
/// least one piece; an empty separator cuts nothing.
pub open spec fn pieces(s: Seq<char>, sep: Seq<char>) -> Seq<Seq<char>> {
    pieces_from(s, sep, 0, 0)
}

fn occurs_at(s: &Vec<char>, sep: &Vec<char>, i: usize) -> (b: bool)
    requires
        i + sep.len() <= s.len(),
    ensures
        b == matches_at(s@, sep@, i as int),
{
    let m = sep.len();
    let mut j: usize = 0;
    while j < m
        invariant
            j <= m,
            m == sep.len(),
            i + m <= s.len(),
            forall|k: int| 0 <= k < j ==> s@[i + k] == sep@[k],
        decreases m - j,
    {
        if s[i + j] != sep[j] {
            assert(s@.subrange(i as int, i + m)[j as int] != sep@[j as int]);
            return false;
        }
        j += 1;
    }
    assert(s@.subrange(i as int, i + m) =~= sep@);
    true
}

/// Cuts `s` at every occurrence of `sep`, from left to right.
pub fn split(s: &Vec<char>, sep: &Vec<char>) -> (tokens: Vec<Vec<char>>)
    ensures
        views(tokens@) == pieces(s@, sep@),
        tokens.len() >= 1,
{
    let n = s.len();
    let m = sep.len();
    let mut tokens: Vec<Vec<char>> = Vec::new();
    let mut start: usize = 0;
    let mut i: usize = 0;
    if m > 0 && m <= n {
        while i <= n - m
            invariant
                0 < m <= n,
                n == s.len(),
                m == sep.len(),
                start <= i <= n,
                views(tokens@) + pieces_from(s@, sep@, start as int, i as int) == pieces(
                    s@,
                    sep@,
                ),
            decreases n - i,
        {
            let ghost before = views(tokens@);
            if occurs_at(s, sep, i) {
                let piece = copy_range(s, start, i);
                tokens.push(piece);
                assert(views(tokens@) == before.push(s@.subrange(start as int, i as int)));
                assert(before.push(s@.subrange(start as int, i as int)) + pieces_from(
                    s@,
                    sep@,
                    i + m,
                    i + m,
                ) == before + (seq![s@.subrange(start as int, i as int)] + pieces_from(
                    s@,
                    sep@,
                    i + m,
                    i + m,
                )));
                i = i + m;
                start = i;
            } else {
                i += 1;
            }
        }
    }
    let ghost before = views(tokens@);
    let last = copy_range(s, start, n);
    tokens.push(last);
    assert(views(tokens@) == before.push(s@.subrange(start as int, n as int)));
    assert(before.push(s@.subrange(start as int, n as int)) == before + seq![
        s@.subrange(start as int, n as int),
    ]);
    tokens
}

// ---------------------------------------------------------------------
// Trimming and stripping
// ---------------------------------------------------------------------

/// A character with the Unicode property `White_Space`.
pub open spec fn is_whitespace(c: char) -> bool {
    let u = c as u32;
    (0x09 <= u && u <= 0x0D) || u == 0x20 || u == 0x85 || u == 0xA0 || u == 0x1680 || (0x2000 <= u
        && u <= 0x200A) || u == 0x2028 || u == 0x2029 || u == 0x202F || u == 0x205F || u
        == 0x3000
}

/// `s` without the whitespace it begins with.
pub open spec fn trim_start(s: Seq<char>) -> Seq<char>
    decreases s.len(),
{
    if s.len() > 0 && is_whitespace(s.first()) {
        trim_start(s.drop_first())
    } else {
        s
    }
}

/// `s` without the whitespace it ends with.
pub open spec fn trim_end(s: Seq<char>) -> Seq<char>
    decreases s.len(),
{
    if s.len() > 0 && is_whitespace(s.last()) {
        trim_end(s.drop_last())
    } else {
        s
    }
}

/// `s` without the whitespace at either end.
pub open spec fn trimmed(s: Seq<char>) -> Seq<char> {
    trim_end(trim_start(s))
}

/// Whether `c` has the Unicode property `White_Space`.
pub fn whitespace(c: char) -> (b: bool)
    ensures
        b == is_whitespace(c),
{
    let u: u32 = c as u32;
    (0x09 <= u && u <= 0x0D) || u == 0x20 || u == 0x85 || u == 0xA0 || u == 0x1680 || (0x2000 <= u
        && u <= 0x200A) || u == 0x2028 || u == 0x2029 || u == 0x202F || u == 0x205F || u
        == 0x3000
}

/// Takes the whitespace off both ends of `s`.
pub fn trim(s: &Vec<char>) -> (r: Vec<char>)
    ensures
        r@ == trimmed(s@),
{
    let n = s.len();
    let mut a: usize = 0;
    assert(s@.subrange(0, n as int) == s@);
    while a < n && whitespace(s[a])
        invariant
            a <= n,
            n == s.len(),
            trim_start(s@.subrange(a as int, n as int)) == trim_start(s@),
        decreases n - a,
    {
        assert(s@.subrange(a as int, n as int).drop_first() == s@.subrange(a + 1, n as int));
        a += 1;
    }
    assert(trim_start(s@) == s@.subrange(a as int, n as int));
    let mut b: usize = n;
    while b > a && whitespace(s[b - 1])
        invariant
            a <= b <= n,
            n == s.len(),
            trim_end(s@.subrange(a as int, b as int)) == trim_end(s@.subrange(a as int, n as int)),
        decreases b,
    {
        assert(s@.subrange(a as int, b as int).drop_last() == s@.subrange(a as int, b - 1));
        b -= 1;
    }
    copy_range(s, a, b)
}

/// `s` without any occurrence of `c`.
pub open spec fn without(s: Seq<char>, c: char) -> Seq<char>
    decreases s.len(),
{
    if s.len() == 0 {
        s
    } else if s.last() == c {
        without(s.drop_last(), c)
    } else {
        without(s.drop_last(), c).push(s.last())
    }
}

/// Removes every occurrence of `c` from `s`.
pub fn remove_char(s: &Vec<char>, c: char) -> (r: Vec<char>)
    ensures
        r@ == without(s@, c),
{
    let mut r: Vec<char> = Vec::new();
    let mut i: usize = 0;
    while i < s.len()
        invariant
            i <= s.len(),
            r@ == without(s@.take(i as int), c),
        decreases s.len() - i,
    {
        assert(s@.take(i + 1).drop_last() == s@.take(i as int));
        if s[i] != c {
            r.push(s[i]);
        }
        i += 1;
    }
    assert(s@.take(s.len() as int) == s@);
    r
}

/// `s` with `to` in the place of every `from`.
pub open spec fn replaced(s: Seq<char>, from: char, to: char) -> Seq<char> {
    Seq::new(
        s.len(),
        |i: int|
            if s[i] == from {
                to
            } else {
                s[i]
            },
    )
}

/// Puts `to` in the place of every `from`.
pub fn replace_char(s: &Vec<char>, from: char, to: char) -> (r: Vec<char>)
    ensures
        r@ == replaced(s@, from, to),
{
    let mut r: Vec<char> = Vec::new();
    let mut i: usize = 0;
    while i < s.len()
        invariant
            i <= s.len(),
            r.len() == i,
            forall|k: int| 0 <= k < i ==> r@[k] == replaced(s@, from, to)[k],
        decreases s.len() - i,
    {
        if s[i] == from {
            r.push(to);
        } else {
            r.push(s[i]);
        }
        i += 1;
    }
    assert(r@ =~= replaced(s@, from, to));
    r
}

} // verus!
