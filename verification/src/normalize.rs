//! The canonical, upper-case form of an identifier.

use vstd::prelude::*;
use vstd::string::*;
use vstd::utf8::is_ascii_chars;

verus! {

/// The text that `str::to_uppercase` returns for `text`.
pub uninterp spec fn uppercase_text(text: Seq<char>) -> Seq<char>;

/// The upper-case form of an ASCII character; any other character is itself.
pub open spec fn ascii_upper(c: char) -> char {
    if 'a' <= c && c <= 'z' {
        ((c as u8) - 32) as char
    } else {
        c
    }
}

/// The canonical form of a name: letter by letter where the name is ASCII,
/// and what the standard library gives where it is not.
pub open spec fn canonical(name: Seq<char>) -> Seq<char> {
    if is_ascii_chars(name) {
        name.map_values(|c: char| ascii_upper(c))
    } else {
        uppercase_text(name)
    }
}

/// `str::to_uppercase`: the upper-case form of a text under the Unicode case
/// mapping. The mapping is not written out here; the result is named by
/// [`uppercase_text`].
#[verifier::external_body]
fn to_upper(text: &str) -> (out: String)
    ensures
        out@ == uppercase_text(text@),
{
    text.to_uppercase()
}

/// `String::push`: puts one character at the end of the string.
#[verifier::external_body]
fn push_char(text: &mut String, c: char)
    ensures
        final(text)@ == old(text)@.push(c),
{
    text.push(c)
}

/// The upper-case form of one ASCII character.
fn ascii_upper_char(c: char) -> (up: char)
    requires
        c <= '\u{7f}',
    ensures
        up == ascii_upper(c),
{
    if 'a' <= c && c <= 'z' {
        ((c as u8) - 32) as char
    } else {
        c
    }
}

/// Returns the canonical name of an identifier: its upper-case form.
pub fn canonical_name(name: &str) -> (out: String)
    ensures
        out@ == canonical(name@),
{
    if name.is_ascii() {
        let len = name.unicode_len();
        let mut out = String::new();
        let mut i: usize = 0;
        while i < len
            invariant
                i <= len,
                len == name@.len(),
                is_ascii_chars(name@),
                out@ == name@.subrange(0, i as int).map_values(|c: char| ascii_upper(c)),
            decreases len - i,
        {
            let c = name.get_char(i);
            push_char(&mut out, ascii_upper_char(c));
            i += 1;
        }
        assert(name@.subrange(0, len as int) == name@);
        out
    } else {
        to_upper(name)
    }
}

/// The canonical form of an ASCII name is ASCII again, and as long as the name.
pub proof fn canonical_keeps_ascii(name: Seq<char>)
    requires
        is_ascii_chars(name),
    ensures
        is_ascii_chars(canonical(name)),
        canonical(name).len() == name.len(),
{
}

/// Normalizing twice gives what normalizing once gives, for every ASCII name.
pub proof fn canonical_is_idempotent_on_ascii(name: Seq<char>)
    requires
        is_ascii_chars(name),
    ensures
        canonical(canonical(name)) == canonical(name),
{
    canonical_keeps_ascii(name);
}

} // verus!
