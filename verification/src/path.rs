//! Paths as text: components joined by `/`.

use vstd::prelude::*;
use vstd::string::*;

use crate::text::{chars_of, text_of};

verus! {

/// `base` extended by `rest`: an absolute `rest` stands for itself, otherwise the
/// two are joined by one separator.
pub open spec fn joined(base: Seq<char>, rest: Seq<char>) -> Seq<char> {
    if rest.len() > 0 && rest[0] == '/' {
        rest
    } else if base.len() == 0 || base.last() == '/' {
        base + rest
    } else {
        base.push('/') + rest
    }
}

/// Extends a path.
pub fn join_path(base: &str, rest: &str) -> (r: String)
    ensures
        r@ == joined(base@, rest@),
{
    let base_chars = chars_of(base);
    let rest_chars = chars_of(rest);
    if rest_chars.len() > 0 && rest_chars[0] == '/' {
        return rest.to_owned();
    }
    let n: usize = base_chars.len();
    let mut out = base.to_owned();
    if n > 0 && base_chars[n - 1] != '/' {
        out.push('/');
    }
    out.append(rest);
    out
}

/// The place of the last dot of `name`, where it has one.
pub open spec fn last_dot(name: Seq<char>) -> Option<int>
    decreases name.len(),
{
    if name.len() == 0 {
        None
    } else if name.last() == '.' {
        Some(name.len() - 1)
    } else {
        last_dot(name.drop_last())
    }
}

/// The extension of a file name: what follows its last dot. A name without a dot,
/// or whose only dot comes first, has none, nor has `..`.
pub open spec fn extension_of(name: Seq<char>) -> Option<Seq<char>> {
    match last_dot(name) {
        Some(i) if i > 0 && name != ".."@ => Some(name.skip(i + 1)),
        _ => None,
    }
}

/// The name without its extension and the dot before it.
pub open spec fn stem_of(name: Seq<char>) -> Seq<char> {
    match last_dot(name) {
        Some(i) if i > 0 && name != ".."@ => name.take(i),
        _ => name,
    }
}

/// Splits a file name into its stem and its extension.
pub fn split_extension(name: &str) -> (r: (String, Option<String>))
    ensures
        r.0@ == stem_of(name@),
        match extension_of(name@) {
            Some(ext) => r.1 matches Some(e) && e@ == ext,
            None => r.1 is None,
        },
{
    let chars = chars_of(name);
    let n: usize = chars.len();
    let mut i: usize = n;
    assert(name@.take(n as int) =~= name@);
    while i > 0 && chars[i - 1] != '.'
        invariant
            i <= n,
            n == chars@.len(),
            chars@ == name@,
            last_dot(name@.take(i as int)) == last_dot(name@),
        decreases i,
    {
        i -= 1;
        assert(name@.take(i as int) =~= name@.take(i + 1).drop_last());
    }
    let dots = n == 2 && chars[0] == '.' && chars[1] == '.';
    proof {
        reveal_strlit("..");
        if dots {
            assert(name@ =~= ".."@);
        }
    }
    if i <= 1 || dots {
        (name.to_owned(), None)
    } else {
        let stem = text_of(&chars, 0, i - 1);
        let ext = text_of(&chars, i, n);
        assert(stem@ =~= name@.take(i - 1));
        assert(ext@ =~= name@.skip(i as int));
        (stem, Some(ext))
    }
}

/// The place of the last separator of `path`, or -1.
pub open spec fn last_slash(path: Seq<char>) -> int
    decreases path.len(),
{
    if path.len() == 0 {
        -1
    } else if path.last() == '/' {
        path.len() - 1
    } else {
        last_slash(path.drop_last())
    }
}

proof fn lemma_last_slash(path: Seq<char>)
    ensures
        -1 <= last_slash(path) < path.len(),
    decreases path.len(),
{
    if path.len() > 0 && path.last() != '/' {
        lemma_last_slash(path.drop_last());
    }
}

/// The file name of a path: its last component. Separators at the end and components
/// `.` do not count; a path that ends in `..`, or has no component, names no file.
pub open spec fn file_name_of(path: Seq<char>) -> Option<Seq<char>>
    decreases path.len(),
{
    let cut = last_slash(path);
    let component = path.skip(cut + 1);
    if component.len() == 0 || component == "."@ {
        if 0 <= cut < path.len() {
            file_name_of(path.take(cut))
        } else {
            None
        }
    } else if component == ".."@ {
        None
    } else {
        Some(component)
    }
}

/// Reads the file name of a path.
pub fn file_name(path: &str) -> (r: Option<String>)
    ensures
        match file_name_of(path@) {
            Some(name) => r matches Some(n) && n@ == name,
            None => r is None,
        },
{
    let chars = chars_of(path);
    let mut end: usize = chars.len();
    assert(path@.take(end as int) =~= path@);
    loop
        invariant
            end <= chars@.len(),
            chars@ == path@,
            file_name_of(path@.take(end as int)) == file_name_of(path@),
        decreases end,
    {
        let ghost kept = path@.take(end as int);
        let mut start: usize = end;
        assert(kept.take(end as int) =~= kept);
        while start > 0 && chars[start - 1] != '/'
            invariant
                start <= end <= chars@.len(),
                chars@ == path@,
                kept == path@.take(end as int),
                last_slash(kept.take(start as int)) == last_slash(kept),
            decreases start,
        {
            start -= 1;
            assert(kept.take(start as int) =~= kept.take(start + 1).drop_last());
        }
        proof {
            lemma_last_slash(kept);
            assert(last_slash(kept) == start - 1);
            assert(kept.skip(start as int) =~= path@.subrange(start as int, end as int));
            reveal_strlit(".");
            reveal_strlit("..");
        }
        let dot = end - start == 1 && chars[start] == '.';
        let dots = end - start == 2 && chars[start] == '.' && chars[start + 1] == '.';
        proof {
            let component = kept.skip(start as int);
            if dot {
                assert(component =~= "."@);
            }
            if dots {
                assert(component =~= ".."@);
            }
            assert(component == "."@ ==> component.len() == 1 && component[0] == '.');
            assert(component == ".."@ ==> component.len() == 2 && component[0] == '.'
                && component[1] == '.');
        }
        if start == end || dot {
            if start == 0 {
                return None;
            }
            end = start - 1;
            assert(kept.take(end as int) =~= path@.take(end as int));
        } else if dots {
            return None;
        } else {
            return Some(text_of(&chars, start, end));
        }
    }
}

} // verus!
