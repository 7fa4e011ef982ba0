//! White space at the ends of a text.

use vstd::prelude::*;
use vstd::string::*;

verus! {

/// Whether `c` is white space: the code points that Unicode gives the
/// property `White_Space`.
pub open spec fn white_space(c: char) -> bool {
    ||| '\u{9}' <= c <= '\u{d}'
    ||| c == ' '
    ||| c == '\u{85}'
    ||| c == '\u{a0}'
    ||| c == '\u{1680}'
    ||| '\u{2000}' <= c <= '\u{200a}'
    ||| c == '\u{2028}'
    ||| c == '\u{2029}'
    ||| c == '\u{202f}'
    ||| c == '\u{205f}'
    ||| c == '\u{3000}'
}

/// Whether every character of `s` is white space.
pub open spec fn blank(s: Seq<char>) -> bool {
    forall|i: int| 0 <= i < s.len() ==> white_space(#[trigger] s[i])
}

/// Whether `s[i]` is the first character of `s` that is no white space.
pub open spec fn first_visible(s: Seq<char>, i: int) -> bool {
    0 <= i < s.len() && !white_space(s[i]) && blank(s.subrange(0, i))
}

/// Whether `s[i]` is the last character of `s` that is no white space.
pub open spec fn last_visible(s: Seq<char>, i: int) -> bool {
    0 <= i < s.len() && !white_space(s[i]) && blank(s.subrange(i + 1, s.len() as int))
}

/// `s` without the white space at its start and at its end: what lies
/// between its first and its last character that is no white space, both
/// included, and nothing where it has no such character.
pub open spec fn trimmed(s: Seq<char>) -> Seq<char> {
    if blank(s) {
        Seq::empty()
    } else {
        s.subrange(
            choose|i: int| first_visible(s, i),
            (choose|i: int| last_visible(s, i)) + 1,
        )
    }
}

/// Only one character is the first that is no white space, and only one
/// the last.
pub proof fn lemma_visible_ends_unique(s: Seq<char>, first: int, last: int)
    requires
        first_visible(s, first),
        last_visible(s, last),
    ensures
        !blank(s),
        first <= last,
        trimmed(s) == s.subrange(first, last + 1),
{
    let a = choose|i: int| first_visible(s, i);
    let b = choose|i: int| last_visible(s, i);
    if a < first {
        assert(s.subrange(0, first)[a] == s[a]);
    }
    if first < a {
        assert(s.subrange(0, a)[first] == s[first]);
    }
    if b < last {
        assert(s.subrange(b + 1, s.len() as int)[last - b - 1] == s[last]);
    }
    if last < b {
        assert(s.subrange(last + 1, s.len() as int)[b - last - 1] == s[b]);
    }
    if last < first {
        assert(s.subrange(0, first)[last] == s[last]);
    }
}

/// A text that is not blank has a character that is no white space at or
/// after `from`, where all before `from` is white space: the first of them
/// is returned.
pub proof fn lemma_first_visible_exists(s: Seq<char>, from: int) -> (i: int)
    requires
        !blank(s),
        0 <= from <= s.len(),
        blank(s.subrange(0, from)),
    ensures
        from <= i,
        first_visible(s, i),
    decreases s.len() - from,
{
    if from == s.len() {
        assert(s.subrange(0, from) == s);
        from
    } else if !white_space(s[from]) {
        from
    } else {
        assert forall|j: int| 0 <= j < from + 1 implies white_space(
            #[trigger] s.subrange(0, from + 1)[j],
        ) by {
            if j < from {
                assert(s.subrange(0, from)[j] == s[j]);
            }
        }
        lemma_first_visible_exists(s, from + 1)
    }
}

/// A text that is not blank has a character that is no white space before
/// `to`, where all from `to` on is white space: the last of them is
/// returned.
pub proof fn lemma_last_visible_exists(s: Seq<char>, to: int) -> (i: int)
    requires
        !blank(s),
        0 <= to <= s.len(),
        blank(s.subrange(to, s.len() as int)),
    ensures
        i < to,
        last_visible(s, i),
    decreases to,
{
    if to == 0 {
        assert(s.subrange(to, s.len() as int) == s);
        to
    } else if !white_space(s[to - 1]) {
        to - 1
    } else {
        assert forall|j: int| 0 <= j < s.len() - (to - 1) implies white_space(
            #[trigger] s.subrange(to - 1, s.len() as int)[j],
        ) by {
            if j > 0 {
                assert(s.subrange(to, s.len() as int)[j - 1] == s[to - 1 + j]);
            }
        }
        lemma_last_visible_exists(s, to - 1)
    }
}

/// What is trimmed is a part of the text with nothing but white space
/// before and after it. It is empty where the text is blank; else it starts
/// and ends with a character that is no white space. To trim it again
/// changes nothing.
pub proof fn lemma_trimmed(s: Seq<char>) -> (start: int)
    ensures
        0 <= start <= start + trimmed(s).len() <= s.len(),
        trimmed(s) == s.subrange(start, start + trimmed(s).len()),
        blank(s.subrange(0, start)),
        blank(s.subrange(start + trimmed(s).len(), s.len() as int)),
        trimmed(s).len() == 0 <==> blank(s),
        !blank(s) ==> !white_space(trimmed(s).first()) && !white_space(trimmed(s).last()),
        trimmed(trimmed(s)) == trimmed(s),
{
    if blank(s) {
        assert(s.subrange(0, 0) =~= Seq::<char>::empty());
        assert(s.subrange(0, s.len() as int) == s);
        0
    } else {
        assert(s.subrange(0, 0) =~= Seq::<char>::empty());
        assert(s.subrange(s.len() as int, s.len() as int) =~= Seq::<char>::empty());
        let first = lemma_first_visible_exists(s, 0);
        let last = lemma_last_visible_exists(s, s.len() as int);
        lemma_visible_ends_unique(s, first, last);
        let t = trimmed(s);
        assert(t.first() == s[first]);
        assert(t.last() == s[last]);
        assert(t.subrange(0, 0) =~= Seq::<char>::empty());
        assert(t.subrange(t.len() as int, t.len() as int) =~= Seq::<char>::empty());
        lemma_visible_ends_unique(t, 0, t.len() - 1);
        assert(t.subrange(0, t.len() as int) == t);
        first
    }
}

/// Whether `c` is white space.
pub fn is_white_space(c: char) -> (r: bool)
    ensures
        r == white_space(c),
{
    ('\u{9}' <= c && c <= '\u{d}') || c == ' ' || c == '\u{85}' || c == '\u{a0}' || c
        == '\u{1680}' || ('\u{2000}' <= c && c <= '\u{200a}') || c == '\u{2028}' || c
        == '\u{2029}' || c == '\u{202f}' || c == '\u{205f}' || c == '\u{3000}'
}

/// `text` without the white space at its start and at its end.
pub fn trim(text: &str) -> (r: String)
    ensures
        r@ == trimmed(text@),
{
    let len: usize = text.unicode_len();
    let mut seen = false;
    let mut first: usize = 0;
    let mut last: usize = 0;
    let mut at: usize = 0;
    for c in it: text.chars()
        invariant
            it.seq() == text@,
            len == text@.len(),
            at == it.index(),
            seen == !blank(text@.subrange(0, at as int)),
            seen ==> first <= last < at,
            seen ==> first_visible(text@, first as int),
            seen ==> !white_space(text@[last as int]),
            seen ==> blank(text@.subrange(last + 1, at as int)),
    {
        let ghost s = text@;
        assert(s.subrange(0, at + 1)[at as int] == c);
        if !is_white_space(c) {
            if !seen {
                first = at;
                seen = true;
            }
            last = at;
        } else if seen {
            assert forall|i: int| 0 <= i < at - last implies white_space(
                #[trigger] s.subrange(last + 1, at + 1)[i],
            ) by {
                if i < at - last - 1 {
                    assert(s.subrange(last + 1, at as int)[i] == s[last + 1 + i]);
                }
            }
            assert(s.subrange(0, at + 1)[first as int] == s[first as int]);
        } else {
            assert forall|i: int| 0 <= i < at + 1 implies white_space(
                #[trigger] s.subrange(0, at + 1)[i],
            ) by {
                if i < at {
                    assert(s.subrange(0, at as int)[i] == s[i]);
                }
            }
        }
        at = at + 1;
    }
    assert(text@.subrange(0, at as int) == text@);
    if seen {
        proof {
            lemma_visible_ends_unique(text@, first as int, last as int);
        }
        text.substring_char(first, last + 1).to_owned()
    } else {
        String::new()
    }
}

} // verus!
