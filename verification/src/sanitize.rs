//! File-name sanitisation: a title is reduced to the characters that are safe
//! in a file name on every platform the tools run on.

use vstd::prelude::*;
use crate::text::{chars_of, string_of};

verus! {

/// Whether `c` may appear in a sanitised file name: an ASCII letter or digit,
/// a space, a hyphen or an underscore.
pub open spec fn is_safe_char(c: char) -> bool {
    ||| 'a' <= c <= 'z'
    ||| 'A' <= c <= 'Z'
    ||| '0' <= c <= '9'
    ||| c == ' '
    ||| c == '-'
    ||| c == '_'
}

/// The sanitised form of `title`: its safe characters, in their order; every
/// other character is dropped, none is replaced.
pub open spec fn sanitized(title: Seq<char>) -> Seq<char> {
    title.filter(|c: char| is_safe_char(c))
}

/// Whether every character of `name` is safe.
pub open spec fn is_sanitized(name: Seq<char>) -> bool {
    forall|i: int| 0 <= i < name.len() ==> is_safe_char(#[trigger] name[i])
}

/// Decides [`is_safe_char`].
pub fn safe_char(c: char) -> (b: bool)
    ensures
        b == is_safe_char(c),
{
    ('a' <= c && c <= 'z') || ('A' <= c && c <= 'Z') || ('0' <= c && c <= '9') || c == ' '
        || c == '-' || c == '_'
}

/// Sanitising a sequence extended by one character either keeps or drops
/// that character.
pub proof fn lemma_sanitized_push(s: Seq<char>, c: char)
    ensures
        sanitized(s.push(c)) == if is_safe_char(c) {
            sanitized(s).push(c)
        } else {
            sanitized(s)
        },
{
    reveal(Seq::filter);
    assert(s.push(c).drop_last() =~= s);
}

/// Every character of a sanitised title is safe.
pub proof fn lemma_sanitized_is_sanitized(s: Seq<char>)
    ensures
        is_sanitized(sanitized(s)),
    decreases s.len(),
{
    reveal(Seq::filter);
    if s.len() > 0 {
        lemma_sanitized_is_sanitized(s.drop_last());
    }
}

/// A name made of safe characters only is left as it is.
pub proof fn lemma_sanitized_fixes_sanitized(s: Seq<char>)
    requires
        is_sanitized(s),
    ensures
        sanitized(s) == s,
    decreases s.len(),
{
    reveal(Seq::filter);
    if s.len() > 0 {
        lemma_sanitized_fixes_sanitized(s.drop_last());
        assert(s.drop_last().push(s.last()) =~= s);
    }
}

/// Sanitising is idempotent, and its result holds safe characters only.
pub proof fn lemma_sanitized_idempotent(s: Seq<char>)
    ensures
        sanitized(sanitized(s)) == sanitized(s),
        is_sanitized(sanitized(s)),
{
    lemma_sanitized_is_sanitized(s);
    lemma_sanitized_fixes_sanitized(sanitized(s));
}

/// Drops from `title` every character that is not safe in a file name.
pub fn sanitize_filename(title: &str) -> (name: String)
    ensures
        name@ == sanitized(title@),
        is_sanitized(name@),
{
    let chars = chars_of(title);
    let mut kept: Vec<char> = Vec::new();
    let mut i: usize = 0;
    while i < chars.len()
        invariant
            i <= chars.len(),
            chars@ == title@,
            kept@ == sanitized(chars@.take(i as int)),
        decreases chars.len() - i,
    {
        let c = chars[i];
        proof {
            lemma_sanitized_push(chars@.take(i as int), c);
            assert(chars@.take(i as int).push(c) =~= chars@.take(i + 1));
        }
        if safe_char(c) {
            kept.push(c);
        }
        i += 1;
    }
    proof {
        assert(chars@.take(i as int) =~= chars@);
        lemma_sanitized_is_sanitized(title@);
    }
    string_of(&kept)
}

} // verus!
