//! Text helpers shared by the other modules.

use vstd::prelude::*;
use vstd::string::*;

verus! {

/// `String::push` appends the given character to the end of the string.
pub assume_specification[ String::push ](s: &mut String, c: char)
    ensures
        final(s)@ == old(s)@.push(c),
;

/// Whether two texts hold the same characters.
pub fn text_eq(a: &str, b: &str) -> (r: bool)
    ensures
        r == (a@ == b@),
{
    a.to_owned() == b.to_owned()
}

/// The characters of `s`, one by one.
pub fn chars_of(s: &str) -> (r: Vec<char>)
    ensures
        r@ == s@,
{
    let mut out: Vec<char> = Vec::new();
    for c in it: s.chars()
        invariant
            it.seq() == s@,
            out@ == s@.take(it.index()),
    {
        assert(s@.take(it.index() + 1) =~= s@.take(it.index()).push(c));
        out.push(c);
    }
    assert(s@.take(s@.len() as int) =~= s@);
    out
}

/// The text made of the characters `chars[from..to]`.
pub fn text_of(chars: &Vec<char>, from: usize, to: usize) -> (r: String)
    requires
        from <= to <= chars@.len(),
    ensures
        r@ == chars@.subrange(from as int, to as int),
{
    let mut out = String::new();
    let mut i: usize = from;
    while i < to
        invariant
            from <= i <= to <= chars@.len(),
            out@ == chars@.subrange(from as int, i as int),
        decreases to - i,
    {
        out.push(chars[i]);
        i += 1;
        assert(chars@.subrange(from as int, i as int) =~= chars@.subrange(
            from as int,
            i - 1,
        ).push(chars@[i - 1]));
    }
    out
}

// ── Decimal numbers ──────────────────────────────────────────────────────────

/// The character for one decimal digit.
pub open spec fn digit_char(d: nat) -> char {
    (('0' as u32 + d) as u32) as char
}

/// `n` written in decimal, without leading zeros.
pub open spec fn decimal_of(n: nat) -> Seq<char>
    decreases n,
{
    if n < 10 {
        seq![digit_char(n)]
    } else {
        decimal_of(n / 10).push(digit_char(n % 10))
    }
}

fn digit_to_char(d: u8) -> (c: char)
    requires
        d < 10,
    ensures
        c == digit_char(d as nat),
{
    (48u8 + d) as char
}

/// `n` written in decimal.
pub fn decimal(n: u64) -> (r: String)
    ensures
        r@ == decimal_of(n as nat),
    decreases n,
{
    let last: u8 = (n % 10) as u8;
    let mut out = if n < 10 { String::new() } else { decimal(n / 10) };
    out.push(digit_to_char(last));
    assert(Seq::<char>::empty().push(digit_char(last as nat)) =~= seq![digit_char(last as nat)]);
    out
}

/// Different numbers are written differently.
pub proof fn decimal_is_injective(a: nat, b: nat)
    requires
        decimal_of(a) == decimal_of(b),
    ensures
        a == b,
    decreases a,
{
    decimal_is_nonempty(a / 10);
    decimal_is_nonempty(b / 10);
    assert(decimal_of(a).last() == digit_char(a % 10)) by {
        if a < 10 {
            assert(a % 10 == a);
        }
    }
    assert(decimal_of(b).last() == digit_char(b % 10)) by {
        if b < 10 {
            assert(b % 10 == b);
        }
    }
    assert(a % 10 == b % 10);
    if a >= 10 && b >= 10 {
        assert(decimal_of(a).drop_last() =~= decimal_of(a / 10));
        assert(decimal_of(b).drop_last() =~= decimal_of(b / 10));
        decimal_is_injective(a / 10, b / 10);
    }
}

/// Every number is written with at least one digit.
pub proof fn decimal_is_nonempty(n: nat)
    ensures
        decimal_of(n).len() > 0,
{
}

/// The text of `n`, with a leading `-` where it is negative.
pub open spec fn signed_decimal_of(n: int) -> Seq<char> {
    if n < 0 {
        seq!['-'] + decimal_of((-n) as nat)
    } else {
        decimal_of(n as nat)
    }
}

/// `n` written in decimal, with a leading `-` where it is negative.
pub fn signed_decimal(n: i64) -> (r: String)
    ensures
        r@ == signed_decimal_of(n as int),
{
    if n < 0 {
        let mut out = String::new();
        out.push('-');
        let magnitude: u64 = (-(n as i128)) as u64;
        out.append(decimal(magnitude).as_str());
        assert(out@ =~= signed_decimal_of(n as int));
        out
    } else {
        decimal(n as u64)
    }
}

// ── Case folding and trimming ────────────────────────────────────────────────

/// `c` with the letters `A` to `Z` folded to `a` to `z`.
pub open spec fn ascii_lower_char(c: char) -> char {
    if 'A' <= c && c <= 'Z' {
        ((c as u32 + 32) as u32) as char
    } else {
        c
    }
}

/// `s` with the letters `A` to `Z` folded to `a` to `z`.
pub open spec fn ascii_lower(s: Seq<char>) -> Seq<char> {
    s.map_values(|c: char| ascii_lower_char(c))
}

/// Folds the ASCII capitals of `s` to small letters.
pub fn ascii_lowercase(s: &str) -> (r: String)
    ensures
        r@ == ascii_lower(s@),
{
    let mut out = String::new();
    for c in it: s.chars()
        invariant
            it.seq() == s@,
            out@ == ascii_lower(s@.take(it.index())),
    {
        assert(ascii_lower(s@.take(it.index() + 1)) =~= ascii_lower(s@.take(it.index())).push(
            ascii_lower_char(c),
        ));
        if 'A' <= c && c <= 'Z' {
            out.push(((c as u8) + 32) as char);
        } else {
            out.push(c);
        }
    }
    assert(s@.take(s@.len() as int) =~= s@);
    out
}

/// `s` without the characters `c` at its end.
pub open spec fn without_trailing(s: Seq<char>, c: char) -> Seq<char>
    decreases s.len(),
{
    if s.len() > 0 && s.last() == c {
        without_trailing(s.drop_last(), c)
    } else {
        s
    }
}

/// Drops every `c` at the end of `s`.
pub fn trim_end_char(s: &str, c: char) -> (r: String)
    ensures
        r@ == without_trailing(s@, c),
{
    let chars = chars_of(s);
    let mut end: usize = chars.len();
    assert(s@.take(s@.len() as int) =~= s@);
    while end > 0 && chars[end - 1] == c
        invariant
            end <= chars@.len(),
            chars@ == s@,
            without_trailing(s@.take(end as int), c) == without_trailing(s@, c),
        decreases end,
    {
        end -= 1;
        assert(s@.take(end as int) =~= s@.take(end + 1).drop_last());
    }
    text_of(&chars, 0, end)
}

/// The characters that carry Unicode's White_Space property.
pub open spec fn is_white_space(c: char) -> bool {
    let n = c as u32;
    ||| 9 <= n <= 13
    ||| n == 0x20
    ||| n == 0x85
    ||| n == 0xA0
    ||| n == 0x1680
    ||| 0x2000 <= n <= 0x200A
    ||| n == 0x2028
    ||| n == 0x2029
    ||| n == 0x202F
    ||| n == 0x205F
    ||| n == 0x3000
}

/// Whether `c` is white space.
pub fn white_space(c: char) -> (r: bool)
    ensures
        r == is_white_space(c),
{
    let n: u32 = c as u32;
    (9 <= n && n <= 13) || n == 0x20 || n == 0x85 || n == 0xA0 || n == 0x1680 || (0x2000 <= n && n
        <= 0x200A) || n == 0x2028 || n == 0x2029 || n == 0x202F || n == 0x205F || n == 0x3000
}

/// `s` without white space at its end.
pub open spec fn trimmed_end(s: Seq<char>) -> Seq<char>
    decreases s.len(),
{
    if s.len() > 0 && is_white_space(s.last()) {
        trimmed_end(s.drop_last())
    } else {
        s
    }
}

/// `s` without white space at its start.
pub open spec fn trimmed_start(s: Seq<char>) -> Seq<char>
    decreases s.len(),
{
    if s.len() > 0 && is_white_space(s.first()) {
        trimmed_start(s.drop_first())
    } else {
        s
    }
}

/// `s` without white space at either end.
pub open spec fn trimmed(s: Seq<char>) -> Seq<char> {
    trimmed_start(trimmed_end(s))
}

/// Drops white space at both ends of `s`.
pub fn trim(s: &str) -> (r: String)
    ensures
        r@ == trimmed(s@),
{
    let chars = chars_of(s);
    let mut end: usize = chars.len();
    assert(s@.take(s@.len() as int) =~= s@);
    while end > 0 && white_space(chars[end - 1])
        invariant
            end <= chars@.len(),
            chars@ == s@,
            trimmed_end(s@.take(end as int)) == trimmed_end(s@),
        decreases end,
    {
        end -= 1;
        assert(s@.take(end as int) =~= s@.take(end + 1).drop_last());
    }
    let ghost kept = s@.take(end as int);
    assert(kept == trimmed_end(s@));
    let mut start: usize = 0;
    assert(kept.subrange(0, end as int) =~= kept);
    while start < end && white_space(chars[start])
        invariant
            start <= end <= chars@.len(),
            chars@ == s@,
            kept == s@.take(end as int),
            trimmed_start(kept.subrange(start as int, end as int)) == trimmed_start(kept),
        decreases end - start,
    {
        assert(kept.subrange(start as int, end as int).drop_first() =~= kept.subrange(
            start + 1,
            end as int,
        ));
        start += 1;
    }
    assert(s@.subrange(start as int, end as int) =~= kept.subrange(start as int, end as int));
    text_of(&chars, start, end)
}

// ── Reading numbers ──────────────────────────────────────────────────────────

/// Whether `c` is one of `0` to `9`.
pub open spec fn is_digit(c: char) -> bool {
    '0' <= c && c <= '9'
}

/// Whether every character of `s` is a decimal digit.
pub open spec fn all_digits(s: Seq<char>) -> bool {
    forall|i: int| 0 <= i < s.len() ==> is_digit(#[trigger] s[i])
}

/// The number that the digits `s` write.
pub open spec fn digits_value(s: Seq<char>) -> int
    decreases s.len(),
{
    if s.len() == 0 {
        0
    } else {
        digits_value(s.drop_last()) * 10 + (s.last() as int - '0' as int)
    }
}

/// The digits of a signed number: `s` without one leading `+` or `-`.
pub open spec fn unsigned_part(s: Seq<char>) -> Seq<char> {
    if s.len() > 0 && (s[0] == '+' || s[0] == '-') {
        s.skip(1)
    } else {
        s
    }
}

/// The number that `s` writes: an optional sign followed by at least one digit
/// and nothing else.
pub open spec fn integer_value(s: Seq<char>) -> Option<int> {
    let digits = unsigned_part(s);
    if digits.len() > 0 && all_digits(digits) {
        Some(
            if s[0] == '-' {
                -digits_value(digits)
            } else {
                digits_value(digits)
            },
        )
    } else {
        None
    }
}

/// The number that `s` writes, where it fits in an `i64`.
pub open spec fn i64_value(s: Seq<char>) -> Option<i64> {
    match integer_value(s) {
        Some(n) if i64::MIN <= n <= i64::MAX => Some(n as i64),
        _ => None,
    }
}

/// Reads a signed decimal number.
pub fn parse_i64(s: &str) -> (r: Option<i64>)
    ensures
        r == i64_value(s@),
{
    let chars = chars_of(s);
    let n: usize = chars.len();
    let signed = n > 0 && (chars[0] == '+' || chars[0] == '-');
    let negative = n > 0 && chars[0] == '-';
    let start: usize = if signed { 1 } else { 0 };
    let ghost digits = unsigned_part(s@);
    assert(digits =~= s@.skip(start as int));
    if start >= n {
        return None;
    }
    let limit: i128 = 0x8000_0000_0000_0000;
    let mut value: i128 = 0;
    let mut over = false;
    let mut i: usize = start;
    while i < n
        invariant
            start <= i <= n,
            n == chars@.len(),
            chars@ == s@,
            digits == s@.skip(start as int),
            digits == unsigned_part(s@),
            limit == 0x8000_0000_0000_0000,
            all_digits(digits.take(i - start)),
            0 <= value <= limit,
            !over ==> value == digits_value(digits.take(i - start)),
            over ==> digits_value(digits.take(i - start)) > limit,
        decreases n - i,
    {
        let c = chars[i];
        assert(c == digits[i - start]);
        if !('0' <= c && c <= '9') {
            assert(!all_digits(digits));
            return None;
        }
        let d: i128 = (c as u32 - 48) as i128;
        let ghost before = digits.take(i - start);
        i += 1;
        proof {
            assert(digits.take(i - start) =~= before.push(c));
            assert(digits.take(i - start).drop_last() =~= before);
        }
        if !over {
            let next: i128 = value * 10 + d;
            if next > limit {
                over = true;
            } else {
                value = next;
            }
        }
    }
    assert(digits.take(n - start) =~= digits);
    if over {
        return None;
    }
    if negative {
        Some((-value) as i64)
    } else if value < limit {
        Some(value as i64)
    } else {
        None
    }
}

} // verus!
