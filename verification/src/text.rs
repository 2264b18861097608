//! The text a badge can show: at most `TEXT_LIMIT` characters, all ASCII.

use vstd::prelude::*;
use vstd::std_specs::iter::IteratorSpec;

verus! {

/// How many characters of a text are considered: 5 lines of 13.
pub const TEXT_LIMIT: usize = 65;

/// Whether `c` is an ASCII character.
pub open spec fn is_ascii_char(c: char) -> bool {
    (c as u32) < 128
}

/// The ASCII characters of `text`, in their order.
pub open spec fn ascii_only(text: Seq<char>) -> Seq<char> {
    text.filter(|c: char| is_ascii_char(c))
}

/// The part of a text that is considered: its first `TEXT_LIMIT` characters.
pub open spec fn considered(text: Seq<char>) -> Seq<char> {
    if text.len() <= TEXT_LIMIT {
        text
    } else {
        text.take(TEXT_LIMIT as int)
    }
}

/// The text shown for `text`: of its first `TEXT_LIMIT` characters, those
/// that are ASCII, in their order.
pub open spec fn badge_text(text: Seq<char>) -> Seq<char> {
    ascii_only(considered(text))
}

/// Whether `text` can be shown as it is.
pub open spec fn is_badge_text(text: Seq<char>) -> bool {
    &&& text.len() <= TEXT_LIMIT
    &&& forall|i: int| 0 <= i < text.len() ==> is_ascii_char(#[trigger] text[i])
}

/// `String::push` of the standard library appends one character to the
/// string and leaves what it held before in place.
pub assume_specification[ String::push ](s: &mut String, c: char)
    ensures
        final(s)@ == old(s)@.push(c),
;

/// Filtering the extension of a sequence by one character.
proof fn lemma_filter_push(s: Seq<char>, c: char)
    ensures
        ascii_only(s.push(c)) == if is_ascii_char(c) {
            ascii_only(s).push(c)
        } else {
            ascii_only(s)
        },
{
    reveal(Seq::filter);
    assert(s.push(c).drop_last() =~= s);
}

/// A text of ASCII characters passes the filter unchanged.
proof fn lemma_filter_keeps_ascii(s: Seq<char>)
    requires
        forall|i: int| 0 <= i < s.len() ==> is_ascii_char(#[trigger] s[i]),
    ensures
        ascii_only(s) == s,
    decreases s.len(),
{
    reveal(Seq::filter);
    if s.len() > 0 {
        lemma_filter_keeps_ascii(s.drop_last());
    }
}

/// The text of a badge is always one that can be shown.
pub proof fn lemma_badge_text_fits(text: Seq<char>)
    ensures
        is_badge_text(badge_text(text)),
{
}

/// A text that can be shown is shown as it is; so formatting twice changes
/// nothing more.
pub proof fn lemma_badge_text_stable(text: Seq<char>)
    ensures
        is_badge_text(text) ==> badge_text(text) == text,
        badge_text(badge_text(text)) == badge_text(text),
{
    if is_badge_text(text) {
        lemma_filter_keeps_ascii(text);
    }
    lemma_filter_keeps_ascii(badge_text(text));
}

/// Cuts `text` down to what a badge can show: the ASCII characters among
/// its first `TEXT_LIMIT` characters.
pub fn format_text_for_badge(text: &str) -> (shown: String)
    ensures
        shown@ == badge_text(text@),
        is_badge_text(shown@),
{
    let mut shown = String::new();
    let mut chars = text.chars();
    let mut seen: usize = 0;
    let ghost mut prefix: Seq<char> = Seq::empty();
    while seen < TEXT_LIMIT
        invariant
            seen <= TEXT_LIMIT,
            seen == prefix.len(),
            prefix + chars.remaining() == text@,
            shown@ == ascii_only(prefix),
            chars.obeys_prophetic_iter_laws(),
        ensures
            seen == prefix.len(),
            prefix + chars.remaining() == text@,
            shown@ == ascii_only(prefix),
            seen == TEXT_LIMIT || chars.remaining().len() == 0,
        decreases TEXT_LIMIT - seen,
    {
        match chars.next() {
            Some(c) => {
                proof {
                    lemma_filter_push(prefix, c);
                    prefix = prefix.push(c);
                }
                if (c as u32) < 128 {
                    shown.push(c);
                }
                seen += 1;
            },
            None => {
                break ;
            },
        }
    }
    proof {
        if text@.len() > TEXT_LIMIT {
            assert(prefix =~= text@.take(TEXT_LIMIT as int));
        }
    }
    shown
}

} // verus!
