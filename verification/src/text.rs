//! Character-level text primitives: substring search, the components of a
//! `/`-separated path, and the reading of an operator's answer.
//!
//! Every contract here is stated over `Seq<char>`, the view of `str` and
//! `String`.

use vstd::prelude::*;
use vstd::string::StrSliceExecFns;

verus! {

/// `needle` stands in `hay` at position `at`.
pub open spec fn occurs_at(hay: Seq<char>, needle: Seq<char>, at: int) -> bool {
    &&& 0 <= at
    &&& at + needle.len() <= hay.len()
    &&& hay.subrange(at, at + needle.len()) == needle
}

/// `needle` is a contiguous part of `hay`. The empty text is part of every
/// text.
pub open spec fn contains_text(hay: Seq<char>, needle: Seq<char>) -> bool {
    exists|at: int| occurs_at(hay, needle, at)
}

/// The position of the last `c` in `s`, or -1 where `s` holds none.
pub open spec fn last_index_of(s: Seq<char>, c: char) -> int
    decreases s.len(),
{
    if s.len() == 0 {
        -1
    } else if s.last() == c {
        s.len() - 1
    } else {
        last_index_of(s.drop_last(), c)
    }
}

/// The position of the first `c` in `s`, or the length of `s` where it holds
/// none.
pub open spec fn first_index_of(s: Seq<char>, c: char) -> int
    decreases s.len(),
{
    if s.len() == 0 {
        0
    } else if s.first() == c {
        0
    } else {
        1 + first_index_of(s.drop_first(), c)
    }
}

/// The first line of `text`, with the newline that ends it where there is
/// one: what reading one line from the start of `text` yields.
pub open spec fn first_line_of(text: Seq<char>) -> Seq<char> {
    let newline = first_index_of(text, '\n');
    if newline < text.len() {
        text.take(newline + 1)
    } else {
        text
    }
}

/// The part of `path` behind its last `/`: all of `path` where it holds none.
pub open spec fn last_segment(path: Seq<char>) -> Seq<char> {
    path.skip(last_index_of(path, '/') + 1)
}

/// The base name of a `/`-separated path: its final component.
///
/// Trailing separators and a trailing `/.` are normalised away, so `a/b`,
/// `a/b/` and `a/b/.` all name `b`. A path that ends in `..`, that is `.`
/// alone, or that has no component at all (the empty path, `/`) has no base
/// name.
pub open spec fn file_name_of(path: Seq<char>) -> Option<Seq<char>>
    decreases path.len(),
{
    if path.len() == 0 {
        None
    } else if path.last() == '/' {
        file_name_of(path.drop_last())
    } else if path.len() >= 2 && path[path.len() - 1] == '.' && path[path.len() - 2] == '/' {
        file_name_of(path.drop_last())
    } else {
        let segment = last_segment(path);
        if segment == seq!['.'] || segment == seq!['.', '.'] {
            None
        } else {
            Some(segment)
        }
    }
}

/// The extension of a file name: the part behind its last `.`, without the
/// dot. A name without a dot has none, and neither has a name whose only dot
/// is its first character (`.gitignore`).
pub open spec fn extension_of_name(name: Seq<char>) -> Option<Seq<char>> {
    let dot = last_index_of(name, '.');
    if dot <= 0 {
        None
    } else {
        Some(name.skip(dot + 1))
    }
}

/// The extension of the base name of `path`, if it has both.
pub open spec fn extension_of(path: Seq<char>) -> Option<Seq<char>> {
    match file_name_of(path) {
        Some(name) => extension_of_name(name),
        None => None,
    }
}

/// The characters that trimming removes: those with the Unicode property
/// `White_Space`.
pub open spec fn is_whitespace(c: char) -> bool {
    ||| c == '\u{9}'
    ||| c == '\u{A}'
    ||| c == '\u{B}'
    ||| c == '\u{C}'
    ||| c == '\u{D}'
    ||| c == ' '
    ||| c == '\u{85}'
    ||| c == '\u{A0}'
    ||| c == '\u{1680}'
    ||| c == '\u{2000}'
    ||| c == '\u{2001}'
    ||| c == '\u{2002}'
    ||| c == '\u{2003}'
    ||| c == '\u{2004}'
    ||| c == '\u{2005}'
    ||| c == '\u{2006}'
    ||| c == '\u{2007}'
    ||| c == '\u{2008}'
    ||| c == '\u{2009}'
    ||| c == '\u{200A}'
    ||| c == '\u{2028}'
    ||| c == '\u{2029}'
    ||| c == '\u{202F}'
    ||| c == '\u{205F}'
    ||| c == '\u{3000}'
}

/// `answer` holds `y` or `Y` at `at` and nothing but white space elsewhere.
pub open spec fn says_yes_at(answer: Seq<char>, at: int) -> bool {
    &&& 0 <= at < answer.len()
    &&& (answer[at] == 'y' || answer[at] == 'Y')
    &&& forall|k: int| 0 <= k < answer.len() && k != at ==> is_whitespace(#[trigger] answer[k])
}

/// `answer` says yes: it holds exactly one character that is not white
/// space, and that character is `y` or `Y`.
pub open spec fn is_affirmative(answer: Seq<char>) -> bool {
    exists|at: int| says_yes_at(answer, at)
}

/// In an answer that says yes, a character that is not white space is the
/// `y` itself.
pub proof fn lemma_yes_stands_alone(answer: Seq<char>, at: int)
    requires
        is_affirmative(answer),
        0 <= at < answer.len(),
        !is_whitespace(answer[at]),
    ensures
        says_yes_at(answer, at),
{
    let mark = choose|mark: int| says_yes_at(answer, mark);
    if mark != at {
        assert(is_whitespace(answer[at]));
    }
}

/// Where `at` is the last place of `c` in `s` (or -1 and `s` holds no `c`),
/// `last_index_of` says so.
pub proof fn lemma_last_index_of(s: Seq<char>, c: char, at: int)
    requires
        -1 <= at < s.len(),
        at >= 0 ==> s[at] == c,
        forall|k: int| at < k < s.len() ==> s[k] != c,
    ensures
        last_index_of(s, c) == at,
    decreases s.len(),
{
    if s.len() > 0 && s.last() != c {
        lemma_last_index_of(s.drop_last(), c, at);
    }
}

/// Where `at` is the first place of `c` in `s` (or the length of `s` and `s`
/// holds no `c`), `first_index_of` says so.
pub proof fn lemma_first_index_of(s: Seq<char>, c: char, at: int)
    requires
        0 <= at <= s.len(),
        at < s.len() ==> s[at] == c,
        forall|k: int| 0 <= k < at ==> s[k] != c,
    ensures
        first_index_of(s, c) == at,
    decreases s.len(),
{
    if s.len() > 0 && s.first() != c {
        lemma_first_index_of(s.drop_first(), c, at - 1);
    }
}

/// The characters of `s`, in order.
pub fn chars_of(s: &str) -> (v: Vec<char>)
    ensures
        v@ == s@,
{
    let mut v: Vec<char> = Vec::new();
    let chars = s.chars();
    for c in it: chars
        invariant
            v@ == it.seq().take(it.index() as int),
            it.seq() == s@,
    {
        v.push(c);
    }
    v
}

/// Whether `needle` stands in `hay` at `at`.
fn occurs_at_position(hay: &Vec<char>, needle: &Vec<char>, at: usize) -> (found: bool)
    requires
        at + needle.len() <= hay.len(),
    ensures
        found == occurs_at(hay@, needle@, at as int),
{
    let mut k: usize = 0;
    while k < needle.len()
        invariant
            k <= needle.len(),
            at + needle.len() <= hay.len(),
            forall|j: int| 0 <= j < k ==> hay@[at + j] == needle@[j],
        decreases needle.len() - k,
    {
        if hay[at + k] != needle[k] {
            assert(hay@.subrange(at as int, at + needle@.len())[k as int] != needle@[k as int]);
            return false;
        }
        k += 1;
    }
    assert(hay@.subrange(at as int, at + needle@.len()) =~= needle@);
    true
}

/// Whether `needle` is a contiguous part of `hay`.
pub fn contains_chars(hay: &Vec<char>, needle: &Vec<char>) -> (found: bool)
    ensures
        found == contains_text(hay@, needle@),
{
    if needle.len() > hay.len() {
        return false;
    }
    let last: usize = hay.len() - needle.len();
    let mut at: usize = 0;
    loop
        invariant
            at <= last,
            last == hay.len() - needle.len(),
            needle.len() <= hay.len(),
            forall|j: int| 0 <= j < at ==> !occurs_at(hay@, needle@, j),
        decreases last - at,
    {
        if occurs_at_position(hay, needle, at) {
            return true;
        }
        if at == last {
            return false;
        }
        at += 1;
    }
}

/// Whether `needle` is a contiguous part of `hay`. The empty text is part of
/// every text.
pub fn contains(hay: &str, needle: &str) -> (found: bool)
    ensures
        found == contains_text(hay@, needle@),
{
    let hay_chars = chars_of(hay);
    let needle_chars = chars_of(needle);
    contains_chars(&hay_chars, &needle_chars)
}

/// Where the base name of the path `chars` stands in it: its first position
/// and the position behind its last.
fn file_name_range(chars: &Vec<char>) -> (range: Option<(usize, usize)>)
    ensures
        match range {
            Some((start, end)) => {
                &&& start < end <= chars.len()
                &&& file_name_of(chars@) == Some(chars@.subrange(start as int, end as int))
            },
            None => file_name_of(chars@) is None,
        },
{
    let mut end: usize = chars.len();
    assert(chars@.take(end as int) =~= chars@);
    while end > 0 && (chars[end - 1] == '/' || (end >= 2 && chars[end - 1] == '.' && chars[end - 2]
        == '/'))
        invariant
            end <= chars.len(),
            file_name_of(chars@) == file_name_of(chars@.take(end as int)),
        decreases end,
    {
        assert(chars@.take(end as int).drop_last() =~= chars@.take(end - 1));
        end -= 1;
    }
    if end == 0 {
        return None;
    }
    let mut start: usize = end;
    while start > 0 && chars[start - 1] != '/'
        invariant
            start <= end <= chars.len(),
            forall|k: int| start <= k < end ==> chars@[k] != '/',
        decreases start,
    {
        start -= 1;
    }
    let ghost stem = chars@.take(end as int);
    proof {
        lemma_last_index_of(stem, '/', start - 1);
        assert(last_segment(stem) =~= chars@.subrange(start as int, end as int));
    }
    let dots: bool = (end - start == 1 && chars[start] == '.') || (end - start == 2 && chars[start]
        == '.' && chars[start + 1] == '.');
    if dots {
        proof {
            if end - start == 1 {
                assert(last_segment(stem) =~= seq!['.']);
            } else {
                assert(last_segment(stem) =~= seq!['.', '.']);
            }
        }
        None
    } else {
        proof {
            let segment = last_segment(stem);
            if segment == seq!['.'] {
                assert(segment.len() == 1 && segment[0] == '.');
            }
            if segment == seq!['.', '.'] {
                assert(segment.len() == 2 && segment[0] == '.' && segment[1] == '.');
            }
        }
        Some((start, end))
    }
}

/// The base name of `path`, the final component of a `/`-separated path.
pub fn file_name<'a>(path: &'a str) -> (name: Option<&'a str>)
    ensures
        match name {
            Some(n) => file_name_of(path@) == Some(n@),
            None => file_name_of(path@) is None,
        },
{
    let chars = chars_of(path);
    match file_name_range(&chars) {
        Some((start, end)) => Some(path.substring_char(start, end)),
        None => None,
    }
}

/// The extension of the base name of `path`, without its dot.
pub fn extension<'a>(path: &'a str) -> (ext: Option<&'a str>)
    ensures
        match ext {
            Some(e) => extension_of(path@) == Some(e@),
            None => extension_of(path@) is None,
        },
{
    let chars = chars_of(path);
    match file_name_range(&chars) {
        Some((start, end)) => {
            let ghost name = chars@.subrange(start as int, end as int);
            let mut dot: usize = end;
            while dot > start && chars[dot - 1] != '.'
                invariant
                    start <= dot <= end <= chars.len(),
                    forall|k: int| dot <= k < end ==> chars@[k] != '.',
                decreases dot,
            {
                dot -= 1;
            }
            proof {
                lemma_last_index_of(name, '.', dot - 1 - start);
            }
            if dot <= start + 1 {
                None
            } else {
                assert(name.skip(dot - start) =~= chars@.subrange(dot as int, end as int));
                Some(path.substring_char(dot, end))
            }
        },
        None => None,
    }
}

/// Whether `c` is white space.
pub fn is_whitespace_char(c: char) -> (white: bool)
    ensures
        white == is_whitespace(c),
{
    c == '\u{9}' || c == '\u{A}' || c == '\u{B}' || c == '\u{C}' || c == '\u{D}' || c == ' ' || c
        == '\u{85}' || c == '\u{A0}' || c == '\u{1680}' || c == '\u{2000}' || c == '\u{2001}' || c
        == '\u{2002}' || c == '\u{2003}' || c == '\u{2004}' || c == '\u{2005}' || c == '\u{2006}'
        || c == '\u{2007}' || c == '\u{2008}' || c == '\u{2009}' || c == '\u{200A}' || c
        == '\u{2028}' || c == '\u{2029}' || c == '\u{202F}' || c == '\u{205F}' || c == '\u{3000}'
}

/// Whether `answer` says yes: `y` or `Y`, with nothing but white space
/// around it.
pub fn says_yes(answer: &str) -> (yes: bool)
    ensures
        yes == is_affirmative(answer@),
{
    let chars = chars_of(answer);
    let mut seen: bool = false;
    let ghost mut at: int = 0;
    let mut i: usize = 0;
    while i < chars.len()
        invariant
            i <= chars.len(),
            chars@ == answer@,
            seen ==> 0 <= at < i && (chars@[at] == 'y' || chars@[at] == 'Y'),
            forall|k: int| 0 <= k < i && !(seen && k == at) ==> is_whitespace(#[trigger] chars@[k]),
        decreases chars.len() - i,
    {
        let c = chars[i];
        if is_whitespace_char(c) {
        } else if (c == 'y' || c == 'Y') && !seen {
            seen = true;
            proof {
                at = i as int;
            }
        } else {
            proof {
                if is_affirmative(answer@) {
                    lemma_yes_stands_alone(answer@, i as int);
                    if seen {
                        assert(is_whitespace(answer@[at]));
                    }
                }
            }
            return false;
        }
        i += 1;
    }
    proof {
        if seen {
            assert(says_yes_at(answer@, at));
        } else if is_affirmative(answer@) {
            let mark = choose|mark: int| says_yes_at(answer@, mark);
            assert(is_whitespace(answer@[mark]));
        }
    }
    seen
}

/// The first line of `text`, with the newline that ends it where there is
/// one.
pub fn first_line<'a>(text: &'a str) -> (line: &'a str)
    ensures
        line@ == first_line_of(text@),
{
    let chars = chars_of(text);
    let mut i: usize = 0;
    while i < chars.len() && chars[i] != '\n'
        invariant
            i <= chars.len(),
            forall|k: int| 0 <= k < i ==> chars@[k] != '\n',
        decreases chars.len() - i,
    {
        i += 1;
    }
    proof {
        lemma_first_index_of(chars@, '\n', i as int);
    }
    if i < chars.len() {
        text.substring_char(0, i + 1)
    } else {
        assert(text@.subrange(0, text@.len() as int) =~= text@);
        text.substring_char(0, i)
    }
}

/// Whether `a` and `b` hold the same characters.
pub fn same_text(a: &str, b: &str) -> (same: bool)
    ensures
        same == (a@ == b@),
{
    let left = chars_of(a);
    let right = chars_of(b);
    if left.len() != right.len() {
        return false;
    }
    let mut i: usize = 0;
    while i < left.len()
        invariant
            i <= left.len(),
            left.len() == right.len(),
            left@ == a@,
            right@ == b@,
            forall|k: int| 0 <= k < i ==> left@[k] == right@[k],
        decreases left.len() - i,
    {
        if left[i] != right[i] {
            return false;
        }
        i += 1;
    }
    assert(left@ =~= right@);
    true
}

} // verus!
