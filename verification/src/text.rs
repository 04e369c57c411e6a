//! Small operations on text, each with an exact contract over `Seq<char>`.

use vstd::prelude::*;
use vstd::string::*;

verus! {

/// Whether two texts hold the same characters.
pub fn same_text(a: &str, b: &str) -> (r: bool)
    ensures
        r == (a@ == b@),
{
    let x = String::from_str(a);
    let y = String::from_str(b);
    x == y
}

/// The least index from `from` on at which `c` stands in `s`, if there is one.
pub open spec fn first_index(s: Seq<char>, c: char, from: int) -> Option<int>
    decreases s.len() - from,
{
    if from < 0 || from >= s.len() {
        None
    } else if s[from] == c {
        Some(from)
    } else {
        first_index(s, c, from + 1)
    }
}

/// `first_index` finds an occurrence, skips none, and finds nothing only
/// where there is none.
pub proof fn first_index_is_least(s: Seq<char>, c: char, from: int)
    requires
        0 <= from,
    ensures
        match first_index(s, c, from) {
            Some(i) => from <= i < s.len() && s[i] == c && forall|j: int|
                from <= j < i ==> s[j] != c,
            None => forall|j: int| from <= j < s.len() ==> s[j] != c,
        },
    decreases s.len() - from,
{
    if from < s.len() && s[from] != c {
        first_index_is_least(s, c, from + 1);
    }
}

/// The characters of a text.
pub fn chars_of(s: &str) -> (chars: Vec<char>)
    ensures
        chars@ == s@,
{
    let mut chars: Vec<char> = Vec::new();
    for c in it: s.chars()
        invariant
            it.seq() == s@,
            chars@ == it.seq().take(it.index() as int),
    {
        chars.push(c);
    }
    chars
}

/// The index of the first `c` in `s` at or after `from`.
pub fn find_char(s: &str, c: char, from: usize) -> (r: Option<usize>)
    ensures
        match r {
            Some(i) => first_index(s@, c, from as int) == Some(i as int),
            None => first_index(s@, c, from as int) is None,
        },
{
    let chars = chars_of(s);
    let mut i = from;
    while i < chars.len()
        invariant
            from <= i,
            chars@ == s@,
            first_index(s@, c, from as int) == first_index(s@, c, i as int),
        decreases chars.len() - i,
    {
        if chars[i] == c {
            return Some(i);
        }
        i += 1;
    }
    None
}

/// The lines of the items, one after the other in the order of the items.
pub open spec fn lines<T>(items: Seq<T>, line: spec_fn(T) -> Seq<char>) -> Seq<char>
    decreases items.len(),
{
    if items.len() == 0 {
        Seq::empty()
    } else {
        lines(items.drop_last(), line) + line(items.last())
    }
}

/// The lines of the first `k + 1` items are the lines of the first `k`,
/// followed by the line of the item at `k`.
pub proof fn lines_follow_the_items<T>(items: Seq<T>, line: spec_fn(T) -> Seq<char>, k: int)
    requires
        0 <= k < items.len(),
    ensures
        lines(items.take(k + 1), line) == lines(items.take(k), line) + line(items[k]),
{
    assert(items.take(k + 1).drop_last() =~= items.take(k));
}

} // verus!
