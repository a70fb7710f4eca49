//! The name of the file that a download is written to.
//!
//! A title becomes a file name by replacing every character that a file
//! system may refuse with an underscore and by making sure that the name
//! ends in `.mp3`. An episode without a title is named by its position.

use vstd::prelude::*;
use vstd::string::*;
use crate::text::{decimal_text, push_decimal};

verus! {

/// The characters that may not stand in a file name.
pub open spec fn is_forbidden(c: char) -> bool {
    c == '/' || c == '\\' || c == '?' || c == '%' || c == '*' || c == ':' || c == '|' || c == '"'
        || c == '<' || c == '>'
}

/// The character that stands in the file name for `c`.
pub open spec fn clean_char(c: char) -> char {
    if is_forbidden(c) {
        '_'
    } else {
        c
    }
}

/// The text with every forbidden character replaced by an underscore.
pub open spec fn cleaned(s: Seq<char>) -> Seq<char> {
    Seq::new(s.len(), |i: int| clean_char(s[i]))
}

/// The suffix of every destination file.
pub open spec fn suffix() -> Seq<char> {
    seq!['.', 'm', 'p', '3']
}

/// Whether the text ends in `.mp3`.
pub open spec fn has_suffix(s: Seq<char>) -> bool {
    s.len() >= 4 && s.subrange(s.len() - 4, s.len() as int) == suffix()
}

/// The file name made from a title.
pub open spec fn sanitized(s: Seq<char>) -> Seq<char> {
    if has_suffix(cleaned(s)) {
        cleaned(s)
    } else {
        cleaned(s) + suffix()
    }
}

/// The file name of an episode without a title, by its position in the list.
pub open spec fn fallback_name(index: nat) -> Seq<char> {
    seq!['e', 'p', 'i', 's', 'o', 'd', 'e', '_'] + decimal_text(index) + suffix()
}

/// The file name of the episode at `index` with the given title, if it has one.
pub open spec fn destination_of(title: Option<Seq<char>>, index: nat) -> Seq<char> {
    match title {
        Some(t) => sanitized(t),
        None => fallback_name(index),
    }
}

/// Tells whether a character may not stand in a file name.
pub fn forbidden(c: char) -> (r: bool)
    ensures
        r == is_forbidden(c),
{
    c == '/' || c == '\\' || c == '?' || c == '%' || c == '*' || c == ':' || c == '|' || c == '"'
        || c == '<' || c == '>'
}

/// Turns a title into a file name: every forbidden character becomes an
/// underscore, and `.mp3` is appended unless the name already ends in it.
pub fn sanitize_filename(filename: &str) -> (r: String)
    ensures
        r@ == sanitized(filename@),
        has_suffix(r@),
        forall|i: int| 0 <= i < r@.len() ==> !is_forbidden(#[trigger] r@[i]),
{
    let n: usize = filename.unicode_len();
    let mut out = String::new();
    let mut i: usize = 0;
    while i < n
        invariant
            n == filename@.len(),
            i <= n,
            out@ == cleaned(filename@).subrange(0, i as int),
        decreases n - i,
    {
        let c = filename.get_char(i);
        if forbidden(c) {
            out.push('_');
        } else {
            out.push(c);
        }
        assert(out@ =~= cleaned(filename@).subrange(0, i + 1));
        i += 1;
    }
    assert(out@ =~= cleaned(filename@));
    if !ends_in_suffix(out.as_str()) {
        out.append(".mp3");
        proof {
            reveal_strlit(".mp3");
            assert(".mp3"@ =~= suffix());
        }
    }
    proof {
        lemma_sanitized_is_clean(filename@);
    }
    out
}

/// Writes the name of the file that the episode at `index` is downloaded to:
/// its sanitized title or, without a title, `episode_` and the index.
pub fn destination_name(title: Option<&str>, index: usize) -> (r: String)
    ensures
        r@ == destination_of(
            match title {
                Some(t) => Some(t@),
                None => None,
            },
            index as nat,
        ),
{
    match title {
        Some(t) => sanitize_filename(t),
        None => {
            let mut out = String::from_str("episode_");
            push_decimal(&mut out, index as u64);
            out.append(".mp3");
            proof {
                reveal_strlit("episode_");
                reveal_strlit(".mp3");
                assert("episode_"@ =~= seq!['e', 'p', 'i', 's', 'o', 'd', 'e', '_']);
                assert(".mp3"@ =~= suffix());
            }
            out
        },
    }
}

/// Tells whether a name ends in `.mp3`.
pub fn ends_in_suffix(name: &str) -> (r: bool)
    ensures
        r == has_suffix(name@),
{
    let n: usize = name.unicode_len();
    if n < 4 {
        return false;
    }
    let r = name.get_char(n - 4) == '.' && name.get_char(n - 3) == 'm' && name.get_char(n - 2)
        == 'p' && name.get_char(n - 1) == '3';
    proof {
        let tail = name@.subrange(n - 4, n as int);
        if r {
            assert(tail =~= suffix());
        } else {
            assert(tail[0] == name@[n - 4]);
            assert(tail[1] == name@[n - 3]);
            assert(tail[2] == name@[n - 2]);
            assert(tail[3] == name@[n - 1]);
        }
    }
    r
}

/// A sanitized name ends in `.mp3` and holds no forbidden character.
pub proof fn lemma_sanitized_is_clean(s: Seq<char>)
    ensures
        has_suffix(sanitized(s)),
        forall|i: int| 0 <= i < sanitized(s).len() ==> !is_forbidden(#[trigger] sanitized(s)[i]),
{
    let c = cleaned(s);
    if !has_suffix(c) {
        let r = c + suffix();
        assert(r.subrange(r.len() - 4, r.len() as int) =~= suffix());
    }
}

/// Sanitizing is idempotent: a sanitized name is its own sanitized name.
pub proof fn lemma_sanitize_idempotent(s: Seq<char>)
    ensures
        sanitized(sanitized(s)) == sanitized(s),
{
    let r = sanitized(s);
    lemma_sanitized_is_clean(s);
    assert(cleaned(r) =~= r);
}

} // verus!
