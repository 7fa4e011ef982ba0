//! Links, and the addresses they stand for on a site.

use vstd::prelude::*;
use vstd::string::*;

verus! {

/// Whether `c` is a letter of ASCII.
pub open spec fn ascii_letter(c: char) -> bool {
    'a' <= c <= 'z' || 'A' <= c <= 'Z'
}

/// Whether `c` may stand in a scheme after its first letter: a letter or a
/// digit of ASCII, `+`, `-` or `.`.
pub open spec fn scheme_char(c: char) -> bool {
    ascii_letter(c) || '0' <= c <= '9' || c == '+' || c == '-' || c == '.'
}

/// Whether the colon at `link[colon]` ends a scheme: before it stand a
/// letter and then nothing but what may stand in a scheme.
pub open spec fn scheme_ends_at(link: Seq<char>, colon: int) -> bool {
    &&& 0 < colon < link.len()
    &&& link[colon] == ':'
    &&& ascii_letter(link[0])
    &&& forall|j: int| 0 < j < colon ==> scheme_char(#[trigger] link[j])
}

/// Whether `link` begins with a scheme, as `https:` or `mailto:`: such a
/// link is an address by itself.
pub open spec fn has_scheme(link: Seq<char>) -> bool {
    exists|colon: int| scheme_ends_at(link, colon)
}

/// The address that `link` stands for on the site at `origin`, an origin
/// without a slash at its end.
///
/// - A link with a scheme is an address already, and stays as it is.
/// - An empty link is the origin itself.
/// - A link that begins with a slash is a path on the site: it follows the
///   origin.
/// - Any other link is taken from the root of the site: it follows the
///   origin and a slash.
pub open spec fn resolved(origin: Seq<char>, link: Seq<char>) -> Seq<char> {
    if has_scheme(link) {
        link
    } else if link.len() == 0 {
        origin
    } else if link[0] == '/' {
        origin + link
    } else {
        origin + "/"@ + link
    }
}

/// Whether `c` is a letter of ASCII.
pub fn is_ascii_letter(c: char) -> (r: bool)
    ensures
        r == ascii_letter(c),
{
    ('a' <= c && c <= 'z') || ('A' <= c && c <= 'Z')
}

/// Whether `c` may stand in a scheme after its first letter.
pub fn is_scheme_char(c: char) -> (r: bool)
    ensures
        r == scheme_char(c),
{
    is_ascii_letter(c) || ('0' <= c && c <= '9') || c == '+' || c == '-' || c == '.'
}

/// Whether `link` begins with a scheme.
pub fn begins_with_scheme(link: &str) -> (r: bool)
    ensures
        r == has_scheme(link@),
{
    let len: usize = link.unicode_len();
    let mut done = false;
    let mut found = false;
    let mut at: usize = 0;
    for c in it: link.chars()
        invariant
            it.seq() == link@,
            len == link@.len(),
            at == it.index(),
            done ==> found == has_scheme(link@),
            !done ==> !found,
            !done && at > 0 ==> ascii_letter(link@[0]),
            !done ==> forall|j: int| 0 < j < at ==> scheme_char(#[trigger] link@[j]),
    {
        if !done {
            if at == 0 {
                if !is_ascii_letter(c) {
                    done = true;
                }
            } else if c == ':' {
                done = true;
                found = true;
                assert(scheme_ends_at(link@, at as int));
            } else if !is_scheme_char(c) {
                done = true;
                assert forall|colon: int| !scheme_ends_at(link@, colon) by {
                    if scheme_ends_at(link@, colon) {
                        if colon < at {
                            assert(scheme_char(link@[colon]));
                        } else if colon > at {
                            assert(scheme_char(link@[at as int]));
                        }
                    }
                }
            }
        }
        at = at + 1;
    }
    proof {
        if !done {
            assert forall|colon: int| !scheme_ends_at(link@, colon) by {
                if scheme_ends_at(link@, colon) {
                    assert(scheme_char(link@[colon]));
                }
            }
        }
    }
    found
}

/// The address that `link` stands for on the site at `origin`.
pub fn resolve(origin: &str, link: &str) -> (address: String)
    ensures
        address@ == resolved(origin@, link@),
{
    if begins_with_scheme(link) {
        return String::from_str(link);
    }
    if link.unicode_len() == 0 {
        return String::from_str(origin);
    }
    if link.get_char(0) == '/' {
        String::from_str(origin).concat(link)
    } else {
        String::from_str(origin).concat("/").concat(link)
    }
}

/// A link with a scheme stays as it is; any other link gives an address
/// that begins with the origin, and that is the origin alone or goes on with
/// a slash.
pub proof fn lemma_resolved_is_on_the_site(origin: Seq<char>, link: Seq<char>)
    ensures
        has_scheme(link) ==> resolved(origin, link) == link,
        !has_scheme(link) ==> resolved(origin, link).len() >= origin.len() && resolved(
            origin,
            link,
        ).subrange(0, origin.len() as int) == origin,
        !has_scheme(link) && link.len() > 0 ==> resolved(origin, link).len() > origin.len()
            && resolved(origin, link)[origin.len() as int] == '/',
        !has_scheme(link) && link.len() > 0 ==> resolved(origin, link).subrange(
            resolved(origin, link).len() - link.len(),
            resolved(origin, link).len() as int,
        ) == link,
{
    reveal_strlit("/");
    if !has_scheme(link) {
        if link.len() == 0 {
            assert(origin.subrange(0, origin.len() as int) == origin);
        } else if link[0] == '/' {
            assert((origin + link).subrange(0, origin.len() as int) == origin);
            assert((origin + link).subrange(origin.len() as int, (origin + link).len() as int)
                == link);
        } else {
            let whole = origin + "/"@ + link;
            assert(whole.subrange(0, origin.len() as int) == origin);
            assert(whole.subrange(whole.len() - link.len(), whole.len() as int) == link);
        }
    }
}

} // verus!
