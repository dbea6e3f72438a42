//! The extensions that the handlers claim are different words, so that the handlers do not
//! get into each other's way.

use vstd::prelude::*;
use vstd::string::*;

use crate::format::{claimed, raw_extensions, standard_extensions, video_extensions};
use crate::text::{ascii_lower, ascii_lower_char};

verus! {

/// Every extension that some handler claims.
pub open spec fn all_extensions() -> Seq<Seq<char>> {
    standard_extensions() + raw_extensions() + video_extensions()
}

/// A short word as a number: its characters are the digits.
spec fn word_number(s: Seq<char>) -> int
    decreases s.len(),
{
    if s.len() == 0 {
        0
    } else {
        s.first() as int + 256 * word_number(s.drop_first())
    }
}

/// Whether a text is in lower case and begins with no dot.
pub open spec fn is_plain_extension(s: Seq<char>) -> bool {
    s.len() > 0 && s[0] != '.' && ascii_lower(s) == s
}

proof fn three_letters(s: Seq<char>, a: char, b: char, c: char)
    requires
        s == seq![a, b, c],
        a != '.',
        ascii_lower_char(a) == a,
        ascii_lower_char(b) == b,
        ascii_lower_char(c) == c,
    ensures
        word_number(s) == a as int + 256 * (b as int + 256 * (c as int)),
        is_plain_extension(s),
{
    reveal_with_fuel(word_number, 4);
    assert(s.drop_first() =~= seq![b, c]);
    assert(seq![b, c].drop_first() =~= seq![c]);
    assert(seq![c].drop_first() =~= Seq::<char>::empty());
    assert(ascii_lower(s) =~= s);
}

proof fn four_letters(s: Seq<char>, a: char, b: char, c: char, d: char)
    requires
        s == seq![a, b, c, d],
        a != '.',
        ascii_lower_char(a) == a,
        ascii_lower_char(b) == b,
        ascii_lower_char(c) == c,
        ascii_lower_char(d) == d,
    ensures
        word_number(s) == a as int + 256 * (b as int + 256 * (c as int + 256 * (d as int))),
        is_plain_extension(s),
{
    reveal_with_fuel(word_number, 5);
    assert(s.drop_first() =~= seq![b, c, d]);
    assert(seq![b, c, d].drop_first() =~= seq![c, d]);
    assert(seq![c, d].drop_first() =~= seq![d]);
    assert(seq![d].drop_first() =~= Seq::<char>::empty());
    assert(ascii_lower(s) =~= s);
}

/// The place in [`all_extensions`] of the words of this list, by their numbers.
spec fn standard_place(n: int) -> int {
    if n == 6778986 {
        0
    } else if n == 1734701162 {
        1
    } else if n == 6778480 {
        2
    } else if n == 1885496695 {
        3
    } else if n == 1717987700 {
        4
    } else if n == 6711668 {
        5
    } else if n == 1667851624 {
        6
    } else if n == 1718183272 {
        7
    } else {
        -1
    }
}

proof fn standard_words(i: int)
    requires
        0 <= i < standard_extensions().len(),
    ensures
        is_plain_extension(standard_extensions()[i]),
        standard_place(word_number(standard_extensions()[i])) == 0 + i,
{
    let words = standard_extensions();
    if i == 0 {
        reveal_strlit("jpg");
        assert(words[i] =~= seq!['j', 'p', 'g']);
        three_letters(words[i], 'j', 'p', 'g');
    }
    if i == 1 {
        reveal_strlit("jpeg");
        assert(words[i] =~= seq!['j', 'p', 'e', 'g']);
        four_letters(words[i], 'j', 'p', 'e', 'g');
    }
    if i == 2 {
        reveal_strlit("png");
        assert(words[i] =~= seq!['p', 'n', 'g']);
        three_letters(words[i], 'p', 'n', 'g');
    }
    if i == 3 {
        reveal_strlit("webp");
        assert(words[i] =~= seq!['w', 'e', 'b', 'p']);
        four_letters(words[i], 'w', 'e', 'b', 'p');
    }
    if i == 4 {
        reveal_strlit("tiff");
        assert(words[i] =~= seq!['t', 'i', 'f', 'f']);
        four_letters(words[i], 't', 'i', 'f', 'f');
    }
    if i == 5 {
        reveal_strlit("tif");
        assert(words[i] =~= seq!['t', 'i', 'f']);
        three_letters(words[i], 't', 'i', 'f');
    }
    if i == 6 {
        reveal_strlit("heic");
        assert(words[i] =~= seq!['h', 'e', 'i', 'c']);
        four_letters(words[i], 'h', 'e', 'i', 'c');
    }
    if i == 7 {
        reveal_strlit("heif");
        assert(words[i] =~= seq!['h', 'e', 'i', 'f']);
        four_letters(words[i], 'h', 'e', 'i', 'f');
    }
}

/// The place in [`all_extensions`] of the words of this list, by their numbers.
spec fn raw_place(n: int) -> int {
    if n == 6910561 {
        8
    } else if n == 7828065 {
        9
    } else if n == 3306083 {
        10
    } else if n == 3371619 {
        11
    } else if n == 7172707 {
        12
    } else if n == 7828067 {
        13
    } else if n == 7496548 {
        14
    } else if n == 7562084 {
        15
    } else if n == 6778468 {
        16
    } else if n == 6713957 {
        17
    } else if n == 7432553 {
        18
    } else if n == 6513771 {
        19
    } else if n == 6710637 {
        20
    } else if n == 7565165 {
        21
    } else if n == 7828077 {
        22
    } else if n == 6710638 {
        23
    } else if n == 7828078 {
        24
    } else if n == 6713967 {
        25
    } else if n == 6910575 {
        26
    } else if n == 6710640 {
        27
    } else if n == 6709618 {
        28
    } else if n == 7823730 {
        29
    } else if n == 3307378 {
        30
    } else if n == 7108466 {
        31
    } else if n == 7828083 {
        32
    } else if n == 7497267 {
        33
    } else if n == 6710886 {
        34
    } else if n == 6697848 {
        35
    } else if n == 7042161 {
        36
    } else {
        -1
    }
}

proof fn raw_words(i: int)
    requires
        0 <= i < raw_extensions().len(),
    ensures
        is_plain_extension(raw_extensions()[i]),
        raw_place(word_number(raw_extensions()[i])) == 8 + i,
{
    let words = raw_extensions();
    if i == 0 {
        reveal_strlit("ari");
        assert(words[i] =~= seq!['a', 'r', 'i']);
        three_letters(words[i], 'a', 'r', 'i');
    }
    if i == 1 {
        reveal_strlit("arw");
        assert(words[i] =~= seq!['a', 'r', 'w']);
        three_letters(words[i], 'a', 'r', 'w');
    }
    if i == 2 {
        reveal_strlit("cr2");
        assert(words[i] =~= seq!['c', 'r', '2']);
        three_letters(words[i], 'c', 'r', '2');
    }
    if i == 3 {
        reveal_strlit("cr3");
        assert(words[i] =~= seq!['c', 'r', '3']);
        three_letters(words[i], 'c', 'r', '3');
    }
    if i == 4 {
        reveal_strlit("crm");
        assert(words[i] =~= seq!['c', 'r', 'm']);
        three_letters(words[i], 'c', 'r', 'm');
    }
    if i == 5 {
        reveal_strlit("crw");
        assert(words[i] =~= seq!['c', 'r', 'w']);
        three_letters(words[i], 'c', 'r', 'w');
    }
    if i == 6 {
        reveal_strlit("dcr");
        assert(words[i] =~= seq!['d', 'c', 'r']);
        three_letters(words[i], 'd', 'c', 'r');
    }
    if i == 7 {
        reveal_strlit("dcs");
        assert(words[i] =~= seq!['d', 'c', 's']);
        three_letters(words[i], 'd', 'c', 's');
    }
    if i == 8 {
        reveal_strlit("dng");
        assert(words[i] =~= seq!['d', 'n', 'g']);
        three_letters(words[i], 'd', 'n', 'g');
    }
    if i == 9 {
        reveal_strlit("erf");
        assert(words[i] =~= seq!['e', 'r', 'f']);
        three_letters(words[i], 'e', 'r', 'f');
    }
    if i == 10 {
        reveal_strlit("iiq");
        assert(words[i] =~= seq!['i', 'i', 'q']);
        three_letters(words[i], 'i', 'i', 'q');
    }
    if i == 11 {
        reveal_strlit("kdc");
        assert(words[i] =~= seq!['k', 'd', 'c']);
        three_letters(words[i], 'k', 'd', 'c');
    }
    if i == 12 {
        reveal_strlit("mef");
        assert(words[i] =~= seq!['m', 'e', 'f']);
        three_letters(words[i], 'm', 'e', 'f');
    }
    if i == 13 {
        reveal_strlit("mos");
        assert(words[i] =~= seq!['m', 'o', 's']);
        three_letters(words[i], 'm', 'o', 's');
    }
    if i == 14 {
        reveal_strlit("mrw");
        assert(words[i] =~= seq!['m', 'r', 'w']);
        three_letters(words[i], 'm', 'r', 'w');
    }
    if i == 15 {
        reveal_strlit("nef");
        assert(words[i] =~= seq!['n', 'e', 'f']);
        three_letters(words[i], 'n', 'e', 'f');
    }
    if i == 16 {
        reveal_strlit("nrw");
        assert(words[i] =~= seq!['n', 'r', 'w']);
        three_letters(words[i], 'n', 'r', 'w');
    }
    if i == 17 {
        reveal_strlit("orf");
        assert(words[i] =~= seq!['o', 'r', 'f']);
        three_letters(words[i], 'o', 'r', 'f');
    }
    if i == 18 {
        reveal_strlit("ori");
        assert(words[i] =~= seq!['o', 'r', 'i']);
        three_letters(words[i], 'o', 'r', 'i');
    }
    if i == 19 {
        reveal_strlit("pef");
        assert(words[i] =~= seq!['p', 'e', 'f']);
        three_letters(words[i], 'p', 'e', 'f');
    }
    if i == 20 {
        reveal_strlit("raf");
        assert(words[i] =~= seq!['r', 'a', 'f']);
        three_letters(words[i], 'r', 'a', 'f');
    }
    if i == 21 {
        reveal_strlit("raw");
        assert(words[i] =~= seq!['r', 'a', 'w']);
        three_letters(words[i], 'r', 'a', 'w');
    }
    if i == 22 {
        reveal_strlit("rw2");
        assert(words[i] =~= seq!['r', 'w', '2']);
        three_letters(words[i], 'r', 'w', '2');
    }
    if i == 23 {
        reveal_strlit("rwl");
        assert(words[i] =~= seq!['r', 'w', 'l']);
        three_letters(words[i], 'r', 'w', 'l');
    }
    if i == 24 {
        reveal_strlit("srw");
        assert(words[i] =~= seq!['s', 'r', 'w']);
        three_letters(words[i], 's', 'r', 'w');
    }
    if i == 25 {
        reveal_strlit("3fr");
        assert(words[i] =~= seq!['3', 'f', 'r']);
        three_letters(words[i], '3', 'f', 'r');
    }
    if i == 26 {
        reveal_strlit("fff");
        assert(words[i] =~= seq!['f', 'f', 'f']);
        three_letters(words[i], 'f', 'f', 'f');
    }
    if i == 27 {
        reveal_strlit("x3f");
        assert(words[i] =~= seq!['x', '3', 'f']);
        three_letters(words[i], 'x', '3', 'f');
    }
    if i == 28 {
        reveal_strlit("qtk");
        assert(words[i] =~= seq!['q', 't', 'k']);
        three_letters(words[i], 'q', 't', 'k');
    }
}

/// The place in [`all_extensions`] of the words of this list, by their numbers.
spec fn video_place(n: int) -> int {
    if n == 3436653 {
        37
    } else if n == 7761773 {
        38
    } else if n == 7746669 {
        39
    } else if n == 7760749 {
        40
    } else if n == 1835165047 {
        41
    } else if n == 6911585 {
        42
    } else if n == 7566445 {
        43
    } else if n == 1936994925 {
        44
    } else if n == 7366451 {
        45
    } else {
        -1
    }
}

proof fn video_words(i: int)
    requires
        0 <= i < video_extensions().len(),
    ensures
        is_plain_extension(video_extensions()[i]),
        video_place(word_number(video_extensions()[i])) == 37 + i,
{
    let words = video_extensions();
    if i == 0 {
        reveal_strlit("mp4");
        assert(words[i] =~= seq!['m', 'p', '4']);
        three_letters(words[i], 'm', 'p', '4');
    }
    if i == 1 {
        reveal_strlit("mov");
        assert(words[i] =~= seq!['m', 'o', 'v']);
        three_letters(words[i], 'm', 'o', 'v');
    }
    if i == 2 {
        reveal_strlit("m4v");
        assert(words[i] =~= seq!['m', '4', 'v']);
        three_letters(words[i], 'm', '4', 'v');
    }
    if i == 3 {
        reveal_strlit("mkv");
        assert(words[i] =~= seq!['m', 'k', 'v']);
        three_letters(words[i], 'm', 'k', 'v');
    }
    if i == 4 {
        reveal_strlit("webm");
        assert(words[i] =~= seq!['w', 'e', 'b', 'm']);
        four_letters(words[i], 'w', 'e', 'b', 'm');
    }
    if i == 5 {
        reveal_strlit("avi");
        assert(words[i] =~= seq!['a', 'v', 'i']);
        three_letters(words[i], 'a', 'v', 'i');
    }
    if i == 6 {
        reveal_strlit("mts");
        assert(words[i] =~= seq!['m', 't', 's']);
        three_letters(words[i], 'm', 't', 's');
    }
    if i == 7 {
        reveal_strlit("m2ts");
        assert(words[i] =~= seq!['m', '2', 't', 's']);
        four_letters(words[i], 'm', '2', 't', 's');
    }
    if i == 8 {
        reveal_strlit("3gp");
        assert(words[i] =~= seq!['3', 'g', 'p']);
        three_letters(words[i], '3', 'g', 'p');
    }
}

/// The place of an extension, by its number.
spec fn place_of(n: int) -> int {
    if standard_place(n) >= 0 {
        standard_place(n)
    } else if raw_place(n) >= 0 {
        raw_place(n)
    } else {
        video_place(n)
    }
}

proof fn place_is_known(i: int)
    requires
        0 <= i < all_extensions().len(),
    ensures
        place_of(word_number(all_extensions()[i])) == i,
        is_plain_extension(all_extensions()[i]),
{
    if i < 8 {
        standard_words(i);
    } else if i < 37 {
        raw_words(i - 8);
    } else {
        video_words(i - 37);
    }
}

/// The extensions of all handlers are in lower case and without a dot, and none occurs
/// twice, neither in one list nor in two: the order in which the handlers are registered
/// does not matter.
pub proof fn extensions_are_distinct(i: int, j: int)
    requires
        0 <= i < all_extensions().len(),
        0 <= j < all_extensions().len(),
    ensures
        is_plain_extension(all_extensions()[i]),
        all_extensions()[i] == all_extensions()[j] ==> i == j,
{
    place_is_known(i);
    place_is_known(j);
}

/// Handlers that claim different extensions can be registered in either order.
pub proof fn registration_order_does_not_matter(
    handlers: Map<Seq<char>, usize>,
    a: Seq<Seq<char>>,
    x: usize,
    b: Seq<Seq<char>>,
    y: usize,
)
    requires
        forall|i: int, j: int|
            0 <= i < a.len() && 0 <= j < b.len() ==> #[trigger] a[i] != #[trigger] b[j],
    ensures
        claimed(claimed(handlers, a, x), b, y) == claimed(claimed(handlers, b, y), a, x),
{
    claimed_map(handlers, a, x);
    claimed_map(claimed(handlers, a, x), b, y);
    claimed_map(handlers, b, y);
    claimed_map(claimed(handlers, b, y), a, x);
    let left = claimed(claimed(handlers, a, x), b, y);
    let right = claimed(claimed(handlers, b, y), a, x);
    assert forall|k: Seq<char>| a.contains(k) && b.contains(k) implies false by {
        let i = choose|i: int| 0 <= i < a.len() && a[i] == k;
        let j = choose|j: int| 0 <= j < b.len() && b[j] == k;
        assert(a[i] != b[j]);
    }
    assert(left =~= right);
}

/// Any two of the three handlers can be registered in either order.
pub proof fn handlers_get_along(handlers: Map<Seq<char>, usize>, x: usize, y: usize)
    ensures
        claimed(claimed(handlers, standard_extensions(), x), raw_extensions(), y) == claimed(
            claimed(handlers, raw_extensions(), y),
            standard_extensions(),
            x,
        ),
        claimed(claimed(handlers, standard_extensions(), x), video_extensions(), y) == claimed(
            claimed(handlers, video_extensions(), y),
            standard_extensions(),
            x,
        ),
        claimed(claimed(handlers, raw_extensions(), x), video_extensions(), y) == claimed(
            claimed(handlers, video_extensions(), y),
            raw_extensions(),
            x,
        ),
{
    let (a, b, c) = (standard_extensions(), raw_extensions(), video_extensions());
    let all = all_extensions();
    assert forall|i: int, j: int| 0 <= i < a.len() && 0 <= j < b.len() implies #[trigger] a[i]
        != #[trigger] b[j] by {
        extensions_are_distinct(i, a.len() + j);
        assert(all[i] == a[i] && all[a.len() + j] == b[j]);
    }
    assert forall|i: int, j: int| 0 <= i < a.len() && 0 <= j < c.len() implies #[trigger] a[i]
        != #[trigger] c[j] by {
        extensions_are_distinct(i, a.len() + b.len() + j);
        assert(all[i] == a[i] && all[a.len() + b.len() + j] == c[j]);
    }
    assert forall|i: int, j: int| 0 <= i < b.len() && 0 <= j < c.len() implies #[trigger] b[i]
        != #[trigger] c[j] by {
        extensions_are_distinct(a.len() + i, a.len() + b.len() + j);
        assert(all[a.len() + i] == b[i] && all[a.len() + b.len() + j] == c[j]);
    }
    registration_order_does_not_matter(handlers, a, x, b, y);
    registration_order_does_not_matter(handlers, a, x, c, y);
    registration_order_does_not_matter(handlers, b, x, c, y);
}

proof fn claimed_map(handlers: Map<Seq<char>, usize>, extensions: Seq<Seq<char>>, handler: usize)
    ensures
        forall|k: Seq<char>|
            #![trigger claimed(handlers, extensions, handler).contains_key(k)]
            #![trigger claimed(handlers, extensions, handler)[k]]
            {
                &&& claimed(handlers, extensions, handler).contains_key(k) <==> (
                handlers.contains_key(k) || extensions.contains(k))
                &&& extensions.contains(k) ==> claimed(handlers, extensions, handler)[k] == handler
                &&& handlers.contains_key(k) && !extensions.contains(k) ==> claimed(
                    handlers,
                    extensions,
                    handler,
                )[k] == handlers[k]
            },
    decreases extensions.len(),
{
    if extensions.len() > 0 {
        let rest = extensions.drop_last();
        claimed_map(handlers, rest, handler);
        assert(extensions =~= rest.push(extensions.last()));
        let before = claimed(handlers, rest, handler);
        let after = claimed(handlers, extensions, handler);
        assert(after == before.insert(extensions.last(), handler));
        assert forall|k: Seq<char>|
            {
                &&& after.contains_key(k) <==> (handlers.contains_key(k) || extensions.contains(k))
                &&& extensions.contains(k) ==> after[k] == handler
                &&& handlers.contains_key(k) && !extensions.contains(k) ==> after[k] == handlers[k]
            } by {
            assert(before.contains_key(k) <==> (handlers.contains_key(k) || rest.contains(k)));
            if extensions.contains(k) {
                let i = choose|i: int| 0 <= i < extensions.len() && extensions[i] == k;
                if i < rest.len() {
                    assert(rest[i] == k);
                }
            }
            if rest.contains(k) {
                let i = choose|i: int| 0 <= i < rest.len() && rest[i] == k;
                assert(extensions[i] == k);
            }
            assert(extensions[extensions.len() - 1] == extensions.last());
        }
    }
}

} // verus!
