//! Numbers, names, paths and days as text.

use vstd::prelude::*;

use crate::calendar::{day_number, days_in_month, is_date, is_leap, leaps_before};
use crate::path::{extension_of, file_name_of, joined, last_dot, stem_of};
use crate::text::{
    ascii_lower, decimal_is_nonempty, decimal_of, digits_value, i64_value, is_digit,
    is_white_space, signed_decimal_of, trimmed, trimmed_end, trimmed_start, without_trailing,
    all_digits, integer_value, unsigned_part, digit_char,
};

verus! {

// ── Numbers ──────────────────────────────────────────────────────────────────

proof fn digits_are_digits(n: nat)
    ensures
        all_digits(decimal_of(n)),
        digits_value(decimal_of(n)) == n,
    decreases n,
{
    let d = n % 10;
    assert(is_digit(digit_char(d)) && digit_char(d) as int - '0' as int == d);
    decimal_is_nonempty(n);
    reveal_with_fuel(digits_value, 2);
    if n < 10 {
        assert(decimal_of(n).drop_last() =~= Seq::<char>::empty());
    } else {
        digits_are_digits(n / 10);
        assert(decimal_of(n).drop_last() =~= decimal_of(n / 10));
        assert(decimal_of(n).last() == digit_char(d));
        assert forall|i: int| 0 <= i < decimal_of(n).len() implies is_digit(
            #[trigger] decimal_of(n)[i],
        ) by {
            if i < decimal_of(n / 10).len() {
                assert(decimal_of(n)[i] == decimal_of(n / 10)[i]);
            }
        }
    }
}

/// A number that is written is read back as the same number.
pub proof fn numbers_are_read_as_written(n: i64)
    ensures
        i64_value(signed_decimal_of(n as int)) == Some(n),
{
    let m: nat = if n < 0 {
        (-n) as nat
    } else {
        n as nat
    };
    digits_are_digits(m);
    decimal_is_nonempty(m);
    let s = signed_decimal_of(n as int);
    if n < 0 {
        assert(s.skip(1) =~= decimal_of(m));
        assert(unsigned_part(s) == decimal_of(m));
    } else {
        assert(is_digit(s[0]));
        assert(unsigned_part(s) == decimal_of(m));
    }
    assert(integer_value(s) == Some(n as int));
}

/// What holds anything but a sign and digits is no number, and a number too large is none
/// either.
pub proof fn odd_texts_are_no_numbers(s: Seq<char>, i: int)
    ensures
        s.len() == 0 ==> i64_value(s) is None,
        0 < i < s.len() && !is_digit(s[i]) ==> i64_value(s) is None,
        s.len() > 0 && !is_digit(s[0]) && s[0] != '+' && s[0] != '-' ==> i64_value(s) is None,
        s.len() == 1 && !is_digit(s[0]) ==> i64_value(s) is None,
{
    if 0 < i < s.len() && !is_digit(s[i]) {
        if s[0] == '+' || s[0] == '-' {
            assert(!is_digit(s.skip(1)[i - 1]));
        }
    }
}

// ── Letters ──────────────────────────────────────────────────────────────────

/// Folding a text keeps its length and every character but the capitals of ASCII, which become
/// the small letters in the same place of the alphabet.
pub proof fn only_capitals_are_folded(s: Seq<char>, i: int)
    requires
        0 <= i < s.len(),
    ensures
        ascii_lower(s).len() == s.len(),
        'A' <= s[i] <= 'Z' ==> ascii_lower(s)[i] as int - 'a' as int == s[i] as int - 'A' as int,
        !('A' <= s[i] <= 'Z') ==> ascii_lower(s)[i] == s[i],
{
}

proof fn start_is_cut(s: Seq<char>)
    ensures
        trimmed_start(s).len() <= s.len(),
        trimmed_start(s) == s.skip(s.len() - trimmed_start(s).len()),
        trimmed_start(s).len() > 0 ==> !is_white_space(trimmed_start(s).first()),
        forall|i: int|
            0 <= i < s.len() - trimmed_start(s).len() ==> is_white_space(#[trigger] s[i]),
    decreases s.len(),
{
    if s.len() > 0 && is_white_space(s.first()) {
        let rest = s.drop_first();
        start_is_cut(rest);
        assert(s.skip(s.len() - trimmed_start(s).len()) =~= trimmed_start(s));
        assert forall|i: int| 0 <= i < s.len() - trimmed_start(s).len() implies is_white_space(
            #[trigger] s[i],
        ) by {
            if i > 0 {
                assert(is_white_space(rest[i - 1]));
            }
        }
    } else {
        assert(s.skip(0) =~= s);
    }
}

proof fn end_is_cut(s: Seq<char>)
    ensures
        trimmed_end(s).len() <= s.len(),
        trimmed_end(s) == s.take(trimmed_end(s).len() as int),
        trimmed_end(s).len() > 0 ==> !is_white_space(trimmed_end(s).last()),
        forall|i: int| trimmed_end(s).len() <= i < s.len() ==> is_white_space(#[trigger] s[i]),
    decreases s.len(),
{
    if s.len() > 0 && is_white_space(s.last()) {
        let rest = s.drop_last();
        end_is_cut(rest);
        assert(s.take(trimmed_end(s).len() as int) =~= trimmed_end(s));
        assert forall|i: int| trimmed_end(s).len() <= i < s.len() implies is_white_space(
            #[trigger] s[i],
        ) by {
            if i < rest.len() {
                assert(is_white_space(rest[i]));
            }
        }
    } else {
        assert(s.take(s.len() as int) =~= s);
    }
}

/// Trimming cuts white space off both ends and nothing else: what is left is a part of the text
/// that neither begins nor ends with white space, and what was cut off is white space.
pub proof fn trimming_cuts_white_space_alone(s: Seq<char>) -> (from: int)
    ensures
        0 <= from <= from + trimmed(s).len() <= s.len(),
        trimmed(s) == s.subrange(from, from + trimmed(s).len()),
        trimmed(s).len() > 0 ==> !is_white_space(trimmed(s).first()) && !is_white_space(
            trimmed(s).last(),
        ),
        forall|i: int|
            0 <= i < s.len() && !(from <= i < from + trimmed(s).len()) ==> is_white_space(
                #[trigger] s[i],
            ),
{
    let kept = trimmed_end(s);
    end_is_cut(s);
    start_is_cut(kept);
    let from = kept.len() - trimmed(s).len();
    assert(trimmed(s) =~= s.subrange(from, from + trimmed(s).len()));
    assert forall|i: int|
        0 <= i < s.len() && !(from <= i < from + trimmed(s).len()) implies is_white_space(
        #[trigger] s[i],
    ) by {
        if i < from {
            assert(kept[i] == s[i]);
        }
    }
    from
}

/// Cutting a character off the end of a text leaves a beginning of it that does not end so.
pub proof fn trailing_characters_are_cut(s: Seq<char>, c: char)
    ensures
        without_trailing(s, c).len() <= s.len(),
        without_trailing(s, c) == s.take(without_trailing(s, c).len() as int),
        without_trailing(s, c).len() > 0 ==> without_trailing(s, c).last() != c,
        forall|i: int| without_trailing(s, c).len() <= i < s.len() ==> (#[trigger] s[i]) == c,
    decreases s.len(),
{
    if s.len() > 0 && s.last() == c {
        let rest = s.drop_last();
        trailing_characters_are_cut(rest, c);
        assert(s.take(without_trailing(s, c).len() as int) =~= without_trailing(s, c));
        assert forall|i: int| without_trailing(s, c).len() <= i < s.len() implies (
        #[trigger] s[i]) == c by {
            if i < rest.len() {
                assert(rest[i] == c);
            }
        }
    } else {
        assert(s.take(s.len() as int) =~= s);
    }
}

// ── Names and paths ──────────────────────────────────────────────────────────

proof fn dots_are_last(name: Seq<char>)
    ensures
        match last_dot(name) {
            Some(i) => 0 <= i < name.len() && name[i] == '.' && forall|j: int|
                i < j < name.len() ==> #[trigger] name[j] != '.',
            None => forall|j: int| 0 <= j < name.len() ==> #[trigger] name[j] != '.',
        },
    decreases name.len(),
{
    if name.len() > 0 && name.last() != '.' {
        let rest = name.drop_last();
        dots_are_last(rest);
        assert forall|j: int| 0 <= j < rest.len() implies name[j] == #[trigger] rest[j] by {}
        match last_dot(name) {
            Some(i) => {
                assert forall|j: int| i < j < name.len() implies #[trigger] name[j] != '.' by {
                    if j < rest.len() {
                        assert(rest[j] != '.');
                    }
                }
            },
            None => {
                assert forall|j: int| 0 <= j < name.len() implies #[trigger] name[j] != '.' by {
                    if j < rest.len() {
                        assert(rest[j] != '.');
                    }
                }
            },
        }
    }
}

/// A file name is its stem, a dot and its extension, and the extension holds no dot. Where
/// there is no extension the name is all stem. A name that begins with its only dot has none.
pub proof fn names_are_put_together_again(name: Seq<char>)
    ensures
        match extension_of(name) {
            Some(ext) => name == stem_of(name).push('.') + ext && stem_of(name).len() > 0
                && forall|j: int| 0 <= j < ext.len() ==> #[trigger] ext[j] != '.',
            None => stem_of(name) == name,
        },
        (exists|j: int| 0 < j < name.len() && #[trigger] name[j] == '.') && name != ".."@
            ==> extension_of(name) is Some,
        (forall|j: int| 0 < j < name.len() ==> #[trigger] name[j] != '.') ==> extension_of(
            name,
        ) is None,
{
    dots_are_last(name);
    match extension_of(name) {
        Some(ext) => {
            assert(name =~= stem_of(name).push('.') + ext);
        },
        None => {},
    }
}

/// An absolute path stands for itself; any other path is looked for below the directory, with
/// one separator between the two.
pub proof fn paths_are_joined(base: Seq<char>, rest: Seq<char>)
    ensures
        rest.len() > 0 && rest[0] == '/' ==> joined(base, rest) == rest,
        !(rest.len() > 0 && rest[0] == '/') ==> {
            &&& joined(base, rest).take(base.len() as int) == base
            &&& joined(base, rest).len() >= rest.len()
            &&& joined(base, rest).skip(joined(base, rest).len() - rest.len()) == rest
            &&& base.len() > 0 ==> joined(base, rest)[joined(base, rest).len() - rest.len() - 1]
                == '/'
            &&& joined(base, rest).len() <= base.len() + 1 + rest.len()
        },
{
    if !(rest.len() > 0 && rest[0] == '/') {
        assert(joined(base, rest).take(base.len() as int) =~= base);
        assert(joined(base, rest).skip(joined(base, rest).len() - rest.len()) =~= rest);
    }
}

proof fn plain_names_have_no_slash(name: Seq<char>)
    requires
        forall|i: int| 0 <= i < name.len() ==> #[trigger] name[i] != '/',
    ensures
        crate::path::last_slash(name) == -1,
    decreases name.len(),
{
    if name.len() > 0 {
        let rest = name.drop_last();
        assert forall|i: int| 0 <= i < rest.len() implies #[trigger] rest[i] != '/' by {
            assert(name[i] != '/');
        }
        plain_names_have_no_slash(rest);
        assert(name[name.len() - 1] != '/');
    }
}

proof fn slash_before_a_name(dir: Seq<char>, name: Seq<char>)
    requires
        forall|i: int| 0 <= i < name.len() ==> #[trigger] name[i] != '/',
    ensures
        crate::path::last_slash(dir.push('/') + name) == dir.len(),
    decreases name.len(),
{
    let path = dir.push('/') + name;
    if name.len() > 0 {
        let rest = name.drop_last();
        assert forall|i: int| 0 <= i < rest.len() implies #[trigger] rest[i] != '/' by {
            assert(name[i] != '/');
        }
        slash_before_a_name(dir, rest);
        assert(path.drop_last() =~= dir.push('/') + rest);
        assert(path.last() == name[name.len() - 1]);
    } else {
        assert(path.last() == '/');
    }
}

/// The file name of a path is what follows its last separator.
pub proof fn files_are_named_last(dir: Seq<char>, name: Seq<char>)
    requires
        name.len() > 0,
        forall|i: int| 0 <= i < name.len() ==> #[trigger] name[i] != '/',
        name != "."@ && name != ".."@,
    ensures
        file_name_of(name) == Some(name),
        file_name_of(dir.push('/') + name) == Some(name),
{
    plain_names_have_no_slash(name);
    assert(name.skip(0) =~= name);
    slash_before_a_name(dir, name);
    assert((dir.push('/') + name).skip(dir.len() as int + 1) =~= name);
}

// ── Days ─────────────────────────────────────────────────────────────────────

proof fn fourths(y: int)
    ensures
        y / 4 - (y - 1) / 4 == (if y % 4 == 0 {
            1int
        } else {
            0
        }),
{
}

proof fn hundredths(y: int)
    ensures
        y / 100 - (y - 1) / 100 == (if y % 100 == 0 {
            1int
        } else {
            0
        }),
        y % 100 == 0 ==> y % 4 == 0,
{
}

proof fn four_hundredths(y: int)
    ensures
        y / 400 - (y - 1) / 400 == (if y % 400 == 0 {
            1int
        } else {
            0
        }),
        y % 400 == 0 ==> y % 100 == 0,
{
}

proof fn leap_years_are_counted(y: int)
    ensures
        leaps_before(y + 1) == leaps_before(y) + (if is_leap(y) {
            1int
        } else {
            0
        }),
{
    fourths(y);
    hundredths(y);
    four_hundredths(y);
}

/// The days follow each other one by one, through the months and the years: the day after the
/// last of a month is the first of the next, and the day after the last of December the first of
/// January. The count begins with 1970.
pub proof fn days_follow_each_other(y: int, m: int, d: int)
    requires
        is_date(y, m, d),
    ensures
        day_number(1970, 1, 1) == 0,
        d < days_in_month(y, m) ==> is_date(y, m, d + 1) && day_number(y, m, d + 1) == day_number(
            y,
            m,
            d,
        ) + 1,
        d == days_in_month(y, m) && m < 12 ==> is_date(y, m + 1, 1) && day_number(y, m + 1, 1)
            == day_number(y, m, d) + 1,
        d == days_in_month(y, m) && m == 12 ==> is_date(y + 1, 1, 1) && day_number(y + 1, 1, 1)
            == day_number(y, m, d) + 1,
{
    reveal_with_fuel(crate::calendar::days_before_month, 13);
    leap_years_are_counted(y);
}

/// February has 29 days in leap years: every fourth year, but of the centuries only every
/// fourth.
pub proof fn leap_years(c: int, y: int)
    ensures
        days_in_month(400 * c, 2) == 29,
        days_in_month(400 * c + 100, 2) == 28,
        days_in_month(400 * c + 200, 2) == 28,
        days_in_month(400 * c + 300, 2) == 28,
        y % 4 != 0 ==> days_in_month(y, 2) == 28,
        y % 4 == 0 && y % 100 != 0 ==> days_in_month(y, 2) == 29,
{
}

/// White space is what Unicode calls so: the controls from tab to carriage return and next line,
/// the blanks of every width, and the separators of lines and paragraphs. No letter, digit or
/// punctuation mark of ASCII is.
pub proof fn blanks_are_white_space(c: char)
    ensures
        c == ' ' || c == '\t' || c == '\n' || c == '\r' ==> is_white_space(c),
        c as u32 == 0x0b || c as u32 == 0x0c || c as u32 == 0x85 || c as u32 == 0xa0
            ==> is_white_space(c),
        c as u32 == 0x1680 || 0x2000 <= c as u32 <= 0x200a || c as u32 == 0x202f || c as u32
            == 0x205f || c as u32 == 0x3000 ==> is_white_space(c),
        c as u32 == 0x2028 || c as u32 == 0x2029 ==> is_white_space(c),
        '!' <= c <= '~' ==> !is_white_space(c),
        c as u32 == 0 || c as u32 == 0x200b || c as u32 == 0xfeff ==> !is_white_space(c),
{
}

} // verus!
