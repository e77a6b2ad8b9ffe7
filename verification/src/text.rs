//! Small operations on text.

use vstd::prelude::*;

verus! {

/// The view of an optional text.
pub open spec fn view_of(text: Option<&str>) -> Option<Seq<char>> {
    match text {
        Some(s) => Some(s@),
        None => None,
    }
}

/// The view of an optional owned text.
pub open spec fn owned_view_of(text: Option<String>) -> Option<Seq<char>> {
    match text {
        Some(s) => Some(s@),
        None => None,
    }
}

/// What follows the last `mark` in `s`, if there is one.
pub open spec fn after_last(s: Seq<char>, mark: char) -> Option<Seq<char>> {
    match s.index_of_last(mark) {
        Some(i) => Some(s.skip(i + 1)),
        None => None,
    }
}

/// `s` without `suffix` at its end, if it ends in that.
pub open spec fn without_suffix(s: Seq<char>, suffix: Seq<char>) -> Option<Seq<char>> {
    if s.len() >= suffix.len() && s.skip(s.len() - suffix.len()) == suffix {
        Some(s.take(s.len() - suffix.len()))
    } else {
        None
    }
}

/// Whether two texts are the same.
pub fn same_text(a: &str, b: &str) -> (r: bool)
    ensures
        r == (a@ == b@),
{
    a.to_owned() == b.to_owned()
}

/// What follows the last `mark` in `s`, if there is one.
pub fn text_after_last<'a>(s: &'a str, mark: char) -> (r: Option<&'a str>)
    ensures
        r is Some <==> after_last(s@, mark) is Some,
        r matches Some(t) ==> Some(t@) == after_last(s@, mark),
{
    let length: usize = s.unicode_len();
    let mut at: usize = 0;
    let mut found: Option<usize> = None;
    for c in it: s.chars()
        invariant
            it.seq() == s@,
            length == s@.len(),
            at == it.index(),
            match found {
                Some(i) => {
                    &&& i < at
                    &&& s@[i as int] == mark
                    &&& forall|j: int| i < j < at ==> s@[j] != mark
                },
                None => forall|j: int| 0 <= j < at ==> s@[j] != mark,
            },
    {
        if c == mark {
            found = Some(at);
        }
        at = at + 1;
    }
    proof {
        s@.index_of_last_ensures(mark);
    }
    match found {
        Some(i) => {
            assert(s@.index_of_last(mark) == Some(i as int)) by {
                assert(s@.contains(mark));
            }
            assert(s@.skip(i + 1) =~= s@.subrange(i + 1, length as int));
            Some(s.substring_char(i + 1, length))
        },
        None => None,
    }
}

/// `s` without `suffix` at its end, if it ends in that.
pub fn strip_suffix<'a>(s: &'a str, suffix: &str) -> (r: Option<&'a str>)
    ensures
        r is Some <==> without_suffix(s@, suffix@) is Some,
        r matches Some(t) ==> Some(t@) == without_suffix(s@, suffix@),
{
    let length: usize = s.unicode_len();
    let tail: usize = suffix.unicode_len();
    if length < tail {
        return None;
    }
    let cut: usize = length - tail;
    assert(s@.skip(cut as int) =~= s@.subrange(cut as int, length as int));
    assert(s@.take(cut as int) =~= s@.subrange(0, cut as int));
    if same_text(s.substring_char(cut, length), suffix) {
        Some(s.substring_char(0, cut))
    } else {
        None
    }
}

} // verus!
