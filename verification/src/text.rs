//! Text primitives shared by the validators and the request pipelines.

use vstd::prelude::*;

verus! {

/// Whether `c` has the Unicode `White_Space` property: the controls from
/// tab to carriage return, the space, the next-line control, the
/// no-break space, the ogham space mark, the spaces from en quad to hair
/// space, the line and paragraph separators, the narrow no-break space,
/// the medium mathematical space and the ideographic space.
pub open spec fn unicode_whitespace(c: char) -> bool {
    ||| '\u{9}' <= c <= '\u{d}'
    ||| c == ' '
    ||| c == '\u{85}'
    ||| c == '\u{a0}'
    ||| c == '\u{1680}'
    ||| '\u{2000}' <= c <= '\u{200a}'
    ||| c == '\u{2028}'
    ||| c == '\u{2029}'
    ||| c == '\u{202f}'
    ||| c == '\u{205f}'
    ||| c == '\u{3000}'
}

/// Whether `c` has the Unicode `Uppercase` property.
pub uninterp spec fn unicode_uppercase(c: char) -> bool;

/// Whether `c` has the Unicode `Lowercase` property.
pub uninterp spec fn unicode_lowercase(c: char) -> bool;

/// Whether `c` belongs to one of the Unicode numeric categories `Nd`, `Nl`, `No`.
pub uninterp spec fn unicode_numeric(c: char) -> bool;

/// The Unicode lowercase mapping of a whole text.
pub uninterp spec fn lowercased(s: Seq<char>) -> Seq<char>;

/// `char::is_uppercase` decides the `Uppercase` property. Of the ASCII
/// characters, the letters `A` to `Z` have it and no other.
pub assume_specification[ char::is_uppercase ](c: char) -> (r: bool)
    ensures
        r == unicode_uppercase(c),
        c <= '\u{7f}' ==> r == ('A' <= c <= 'Z'),
;

/// `char::is_lowercase` decides the `Lowercase` property. Of the ASCII
/// characters, the letters `a` to `z` have it and no other.
pub assume_specification[ char::is_lowercase ](c: char) -> (r: bool)
    ensures
        r == unicode_lowercase(c),
        c <= '\u{7f}' ==> r == ('a' <= c <= 'z'),
;

/// `char::is_numeric` decides membership in the numeric categories. Of
/// the ASCII characters, the digits `0` to `9` belong to them and no other.
pub assume_specification[ char::is_numeric ](c: char) -> (r: bool)
    ensures
        r == unicode_numeric(c),
        c <= '\u{7f}' ==> r == ('0' <= c <= '9'),
;

/// `str::to_lowercase` returns the lowercase mapping of the text.
pub assume_specification[ str::to_lowercase ](s: &str) -> (r: String)
    ensures
        r@ == lowercased(s@),
;

/// `s` without its leading whitespace.
pub open spec fn trimmed_start(s: Seq<char>) -> Seq<char>
    decreases s.len(),
{
    if s.len() > 0 && unicode_whitespace(s[0]) {
        trimmed_start(s.drop_first())
    } else {
        s
    }
}

/// `s` without its trailing whitespace.
pub open spec fn trimmed_end(s: Seq<char>) -> Seq<char>
    decreases s.len(),
{
    if s.len() > 0 && unicode_whitespace(s.last()) {
        trimmed_end(s.drop_last())
    } else {
        s
    }
}

/// `s` without leading and trailing whitespace.
pub open spec fn trimmed(s: Seq<char>) -> Seq<char> {
    trimmed_end(trimmed_start(s))
}

/// `str::trim` removes leading and trailing whitespace and nothing else.
pub assume_specification<'a>[ str::trim ](s: &'a str) -> (r: &'a str)
    ensures
        r@ == trimmed(s@),
;

/// Whether `s` holds nothing but whitespace.
pub open spec fn blank(s: Seq<char>) -> bool {
    forall|i: int| 0 <= i < s.len() ==> unicode_whitespace(#[trigger] s[i])
}

/// Trimming the start leaves a text that does not begin with whitespace,
/// takes nothing from the end, and leaves nothing only of a blank text.
proof fn trimmed_start_is_a_suffix(s: Seq<char>)
    ensures
        trimmed_start(s).len() <= s.len(),
        trimmed_start(s).len() > 0 ==> !unicode_whitespace(trimmed_start(s).first()) && trimmed_start(s).last()
            == s.last(),
        trimmed_start(s).len() == 0 <==> blank(s),
    decreases s.len(),
{
    if s.len() > 0 && unicode_whitespace(s[0]) {
        let rest = s.drop_first();
        trimmed_start_is_a_suffix(rest);
        if blank(rest) {
            assert forall|i: int| 0 <= i < s.len() implies unicode_whitespace(#[trigger] s[i]) by {
                if i > 0 {
                    assert(s[i] == rest[i - 1]);
                }
            }
        }
        if blank(s) {
            assert forall|i: int| 0 <= i < rest.len() implies unicode_whitespace(#[trigger] rest[i]) by {
                assert(rest[i] == s[i + 1]);
            }
        }
    } else if s.len() > 0 {
        assert(!unicode_whitespace(s[0]));
    }
}

/// Trimming the end leaves a text that does not end with whitespace, and
/// takes nothing from the start.
proof fn trimmed_end_is_a_prefix(s: Seq<char>)
    ensures
        trimmed_end(s).len() <= s.len(),
        trimmed_end(s).len() > 0 ==> !unicode_whitespace(trimmed_end(s).last()) && trimmed_end(s).first()
            == s.first(),
        s.len() > 0 && !unicode_whitespace(s.first()) ==> trimmed_end(s).len() > 0,
    decreases s.len(),
{
    if s.len() > 0 && unicode_whitespace(s.last()) {
        trimmed_end_is_a_prefix(s.drop_last());
    }
}

/// What trimming leaves is no longer than the text and neither begins nor
/// ends with whitespace; it is empty exactly where the text is blank.
pub proof fn trimmed_has_no_outer_whitespace(s: Seq<char>)
    ensures
        trimmed(s).len() <= s.len(),
        trimmed(s).len() > 0 ==> !unicode_whitespace(trimmed(s).first()) && !unicode_whitespace(
            trimmed(s).last(),
        ),
        trimmed(s).len() == 0 <==> blank(s),
{
    trimmed_start_is_a_suffix(s);
    trimmed_end_is_a_prefix(trimmed_start(s));
}

/// Whether `a` and `b` hold the same characters.
pub fn same_text(a: &str, b: &str) -> (same: bool)
    ensures
        same == (a@ == b@),
{
    a.to_owned() == b.to_owned()
}

/// `str::strip_prefix` with a text as the prefix: what follows `prefix` in
/// `text`, where `text` starts with it.
#[verifier::external_body]
pub(crate) fn without_prefix<'a>(text: &'a str, prefix: &str) -> (rest: Option<&'a str>)
    ensures
        match rest {
            Some(tail) => text@ == prefix@ + tail@,
            None => !prefix@.is_prefix_of(text@),
        },
{
    text.strip_prefix(prefix)
}

/// Whether `ch` occurs in `s`.
pub fn contains_char(s: &str, ch: char) -> (found: bool)
    ensures
        found == s@.contains(ch),
{
    let mut found: bool = false;
    for c in it: s.chars()
        invariant
            it.seq() == s@,
            found <==> exists|j: int| 0 <= j < it.index() && s@[j] == ch,
    {
        if c == ch {
            found = true;
        }
    }
    found
}

} // verus!
