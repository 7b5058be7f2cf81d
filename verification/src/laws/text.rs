//! What holds of text as the server cleans it.
use crate::text::{
    id_char, safe_id, sanitized, strip, trimmed, trimmed_end, trimmed_start, unicode_alphanumeric,
};
use vstd::prelude::*;

verus! {

/// Whether a character, by its number in Unicode, is white space.
pub open spec fn is_blank(c: char) -> bool {
    let n = c as int;
    ||| 9 <= n <= 13
    ||| n == 32
    ||| n == 133
    ||| n == 160
    ||| n == 5760
    ||| 8192 <= n <= 8202
    ||| n == 8232
    ||| n == 8233
    ||| n == 8239
    ||| n == 8287
    ||| n == 12288
}

/// Whether `t` is the part of `s` from `i` up to `j`, all around it is white space, and it
/// neither starts nor ends with any.
pub open spec fn is_core(s: Seq<char>, t: Seq<char>, i: int, j: int) -> bool {
    &&& 0 <= i <= j <= s.len()
    &&& t == s.subrange(i, j)
    &&& forall|k: int| 0 <= k < i ==> is_blank(#[trigger] s[k])
    &&& forall|k: int| j <= k < s.len() ==> is_blank(#[trigger] s[k])
    &&& i < j ==> !is_blank(s[i]) && !is_blank(s[j - 1])
}

/// Trimming cuts off white space at both ends, all of it, and nothing else.
pub proof fn trimming_cuts_off_white_space(s: Seq<char>)
    ensures
        exists|i: int, j: int| is_core(s, trimmed(s), i, j),
{
    let i = lemma_start(s);
    let rest = trimmed_start(s);
    let n = lemma_end(rest);
    assert(trimmed(s) =~= s.subrange(i, i + n));
    assert forall|k: int| i + n <= k < s.len() implies is_blank(#[trigger] s[k]) by {
        assert(s[k] == rest[k - i]);
    }
    assert(is_core(s, trimmed(s), i, i + n));
}

/// Text that neither starts nor ends with white space stays as it is when it is trimmed.
pub proof fn trimming_keeps_bare_text(s: Seq<char>)
    requires
        s.len() > 0 ==> !is_blank(s.first()) && !is_blank(s.last()),
    ensures
        trimmed(s) == s,
{
}

/// How much white space trimming the start of a text cuts off.
proof fn lemma_start(s: Seq<char>) -> (i: int)
    ensures
        0 <= i <= s.len(),
        trimmed_start(s) == s.skip(i),
        forall|k: int| 0 <= k < i ==> is_blank(#[trigger] s[k]),
        i < s.len() ==> !is_blank(s[i]),
    decreases s.len(),
{
    if s.len() > 0 && is_blank(s.first()) {
        let i = lemma_start(s.drop_first());
        assert(s.drop_first().skip(i) =~= s.skip(i + 1));
        assert forall|k: int| 0 <= k < i + 1 implies is_blank(#[trigger] s[k]) by {
            if k > 0 {
                assert(s[k] == s.drop_first()[k - 1]);
            }
        }
        i + 1
    } else {
        assert(s.skip(0) =~= s);
        0
    }
}

/// How much of a text trimming its end leaves.
proof fn lemma_end(s: Seq<char>) -> (n: int)
    ensures
        0 <= n <= s.len(),
        trimmed_end(s) == s.take(n),
        forall|k: int| n <= k < s.len() ==> is_blank(#[trigger] s[k]),
        n > 0 ==> !is_blank(s[n - 1]),
    decreases s.len(),
{
    if s.len() > 0 && is_blank(s.last()) {
        let n = lemma_end(s.drop_last());
        assert(s.drop_last().take(n) =~= s.take(n));
        assert forall|k: int| n <= k < s.len() implies is_blank(#[trigger] s[k]) by {
            if k < s.len() - 1 {
                assert(s[k] == s.drop_last()[k]);
            }
        }
        n
    } else {
        assert(s.take(s.len() as int) =~= s);
        s.len() as int
    }
}

/// Whether an identifier may hold a character: a letter or a digit of ASCII, a hyphen, or beyond
/// ASCII whatever Unicode counts as a letter or a number.
pub open spec fn belongs_in_id(c: char) -> bool {
    ||| 'a' <= c <= 'z'
    ||| 'A' <= c <= 'Z'
    ||| '0' <= c <= '9'
    ||| c == '-'
    ||| c as int >= 128 && unicode_alphanumeric(c)
}

/// Text of letters and digits of ASCII and of hyphens alone.
pub open spec fn is_plain_id(s: Seq<char>) -> bool {
    forall|i: int|
        0 <= i < s.len() ==> {
            ||| 'a' <= #[trigger] s[i] <= 'z'
            ||| 'A' <= s[i] <= 'Z'
            ||| '0' <= s[i] <= '9'
            ||| s[i] == '-'
        }
}

/// Cleaning goes character by character: two texts in a row are cleaned each for itself, a single
/// character stays where it belongs in an identifier, and is dropped otherwise.
pub proof fn cleaning_goes_by_characters(a: Seq<char>, b: Seq<char>, c: char)
    ensures
        sanitized(Seq::empty()) == Seq::<char>::empty(),
        sanitized(a + b) == sanitized(a) + sanitized(b),
        sanitized(seq![c]) == (if belongs_in_id(c) {
            seq![c]
        } else {
            Seq::empty()
        }),
{
    reveal(Seq::filter);
    Seq::filter_distributes_over_add(a, b, |c: char| id_char(c));
    assert(seq![c].drop_last() =~= Seq::empty());
    assert(sanitized(seq![c].drop_last()) =~= Seq::<char>::empty());
    assert(Seq::<char>::empty().push(c) =~= seq![c]);
}

/// A plain identifier stays as it is when it is cleaned.
pub proof fn cleaning_keeps_plain_ids(s: Seq<char>)
    requires
        is_plain_id(s),
    ensures
        sanitized(s) == s,
    decreases s.len(),
{
    if s.len() == 0 {
        cleaning_goes_by_characters(s, s, 'a');
        assert(s =~= Seq::empty());
    } else {
        let init = s.drop_last();
        cleaning_keeps_plain_ids(init);
        cleaning_goes_by_characters(init, seq![s.last()], s.last());
        assert(s[s.len() - 1] == s.last());
        assert(init + seq![s.last()] =~= s);
    }
}

/// What `safe_id` makes of a text: a plain identifier is handed back unchanged, two texts in a
/// row are cleaned each for itself, and a single character is kept exactly where it belongs.
pub proof fn safe_ids_hold_what_belongs(
    raw: &str,
    id: String,
    a: &str,
    x: String,
    b: &str,
    y: String,
)
    requires
        call_ensures(safe_id, (raw,), id),
        call_ensures(safe_id, (a,), x),
        call_ensures(safe_id, (b,), y),
    ensures
        is_plain_id(raw@) ==> id@ == raw@,
        raw@ == a@ + b@ ==> id@ == x@ + y@,
        raw@.len() == 1 ==> id@ == (if belongs_in_id(raw@[0]) {
            raw@
        } else {
            Seq::empty()
        }),
{
    if is_plain_id(raw@) {
        cleaning_keeps_plain_ids(raw@);
    }
    cleaning_goes_by_characters(a@, b@, raw@[0]);
    if raw@.len() == 1 {
        assert(raw@ =~= seq![raw@[0]]);
    }
}

/// What stands behind a prefix is what makes up the text together with it, and there is nothing
/// only where no text does.
pub proof fn stripping_takes_the_prefix_off(
    text: &'static str,
    prefix: &str,
    rest: Option<&'static str>,
)
    requires
        call_ensures(strip, (text, prefix), rest),
    ensures
        rest matches Some(r) ==> text@ == prefix@ + r@,
        rest is None ==> forall|r: Seq<char>| text@ != #[trigger] (prefix@ + r),
{
    if let Some(r) = rest {
        assert(prefix@ + r@ =~= text@);
    } else {
        assert forall|r: Seq<char>| text@ != #[trigger] (prefix@ + r) by {
            assert((prefix@ + r).subrange(0, prefix@.len() as int) =~= prefix@);
        }
    }
}

} // verus!
