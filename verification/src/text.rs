//! Text as the server cleans it: trimmed values, safe identifiers, prefixes.
use vstd::prelude::*;
use vstd::string::*;
use vstd::utf8::encode_utf8;

verus! {

/// The characters with the Unicode property `White_Space`.
pub open spec fn white_space(c: char) -> bool {
    ||| '\u{9}' <= c <= '\u{d}'
    ||| c == '\u{20}'
    ||| c == '\u{85}'
    ||| c == '\u{a0}'
    ||| c == '\u{1680}'
    ||| '\u{2000}' <= c <= '\u{200a}'
    ||| '\u{2028}' <= c <= '\u{2029}'
    ||| c == '\u{202f}'
    ||| c == '\u{205f}'
    ||| c == '\u{3000}'
}

/// `s` without the white space it starts with.
pub open spec fn trimmed_start(s: Seq<char>) -> Seq<char>
    decreases s.len(),
{
    if s.len() > 0 && white_space(s.first()) {
        trimmed_start(s.drop_first())
    } else {
        s
    }
}

/// `s` without the white space it ends with.
pub open spec fn trimmed_end(s: Seq<char>) -> Seq<char>
    decreases s.len(),
{
    if s.len() > 0 && white_space(s.last()) {
        trimmed_end(s.drop_last())
    } else {
        s
    }
}

/// `s` without the white space at either end.
pub open spec fn trimmed(s: Seq<char>) -> Seq<char> {
    trimmed_end(trimmed_start(s))
}

/// `str::trim` of std: the text without leading and trailing white space, as Unicode
/// defines it.
pub assume_specification[ str::trim ](s: &str) -> (r: &str)
    ensures
        r@ == trimmed(s@),
;

/// `String::push` of std: the character is appended.
pub assume_specification[ String::push ](s: &mut String, c: char)
    ensures
        final(s)@ == old(s)@.push(c),
;

/// What `char::is_alphanumeric` returns of a character beyond ASCII.
pub uninterp spec fn unicode_alphanumeric(c: char) -> bool;

/// The letters and digits of ASCII.
pub open spec fn ascii_alphanumeric(c: char) -> bool {
    'a' <= c <= 'z' || 'A' <= c <= 'Z' || '0' <= c <= '9'
}

/// The letters and digits, of ASCII and beyond.
pub open spec fn alphanumeric(c: char) -> bool {
    if c <= '\u{7f}' {
        ascii_alphanumeric(c)
    } else {
        unicode_alphanumeric(c)
    }
}

/// `char::is_alphanumeric` of std: whether Unicode counts the character as alphabetic or
/// numeric. Of the ASCII characters these are the letters and the digits.
pub assume_specification[ char::is_alphanumeric ](c: char) -> (r: bool)
    ensures
        c <= '\u{7f}' ==> r == ascii_alphanumeric(c),
        c > '\u{7f}' ==> r == unicode_alphanumeric(c),
;

/// The number of bytes of `s` in UTF-8.
pub open spec fn byte_len(s: Seq<char>) -> nat {
    encode_utf8(s).len()
}

/// The characters that an identifier may hold.
pub open spec fn id_char(c: char) -> bool {
    alphanumeric(c) || c == '-'
}

/// `s` reduced to the characters that an identifier may hold.
pub open spec fn sanitized(s: Seq<char>) -> Seq<char> {
    s.filter(|c: char| id_char(c))
}

/// Removes from `raw` every character but letters, digits and hyphens.
pub fn safe_id(raw: &str) -> (id: String)
    ensures
        id@ == sanitized(raw@),
{
    let mut id = String::new();
    let ghost keep = |c: char| id_char(c);
    proof {
        reveal(Seq::filter);
        assert(raw@.take(0) =~= Seq::<char>::empty());
    }
    for c in it: raw.chars()
        invariant
            it.seq() == raw@,
            keep == (|c: char| id_char(c)),
            id@ == raw@.take(it.index() as int).filter(keep),
    {
        proof {
            reveal(Seq::filter);
            assert(raw@.take(it.index() + 1).drop_last() =~= raw@.take(it.index() as int));
        }
        if c.is_alphanumeric() || c == '-' {
            id.push(c);
        }
    }
    assert(raw@.take(raw@.len() as int) =~= raw@);
    id
}

/// The rest of `text` behind `prefix`, where `text` starts with it.
pub open spec fn behind(text: Seq<char>, prefix: Seq<char>) -> Option<Seq<char>> {
    if prefix.is_prefix_of(text) {
        Some(text.skip(prefix.len() as int))
    } else {
        None
    }
}

/// Returns what stands behind `prefix` where `text` starts with it.
pub fn strip<'a>(text: &'a str, prefix: &str) -> (rest: Option<&'a str>)
    ensures
        rest is Some <==> behind(text@, prefix@) is Some,
        rest matches Some(r) ==> behind(text@, prefix@) == Some(r@),
{
    let text_len = text.unicode_len();
    let prefix_len = prefix.unicode_len();
    if text_len < prefix_len {
        return None;
    }
    for i in 0..prefix_len
        invariant
            prefix_len == prefix@.len(),
            prefix_len <= text@.len(),
            prefix@.take(i as int) == text@.take(i as int),
    {
        let c: char = prefix.get_char(i);
        if text.get_char(i) != c {
            assert(prefix@[i as int] != text@.subrange(0, prefix@.len() as int)[i as int]);
            return None;
        }
        assert(prefix@.take(i + 1) =~= text@.take(i + 1)) by {
            assert(prefix@.take(i + 1) =~= prefix@.take(i as int).push(c));
            assert(text@.take(i + 1) =~= text@.take(i as int).push(c));
        }
    }
    assert(prefix@.take(prefix@.len() as int) =~= prefix@);
    Some(text.substring_char(prefix_len, text_len))
}

} // verus!
