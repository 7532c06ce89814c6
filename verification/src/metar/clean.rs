//! Cleaning of a report before it is decoded.
//!
//! The groups of a report are told apart by single blanks, so the text is
//! brought to that form first: upper case, no white space at either end, no
//! NUL characters, one blank for each run of white space, and no `=` or blank
//! at the end.

use crate::text::{chars_of, is_space, space};
use vstd::prelude::*;

verus! {

/// What `str::to_uppercase` makes of a text.
pub uninterp spec fn uppercased(s: Seq<char>) -> Seq<char>;

/// `str::to_uppercase`: the text with each character replaced by its upper
/// case form, which may be more than one character.
#[verifier::external_body]
pub(crate) fn uppercase(s: &str) -> (r: String)
    ensures
        r@ == uppercased(s@),
{
    s.to_uppercase()
}

/// `s` without the white space at its start.
pub open spec fn trim_start(s: Seq<char>) -> Seq<char>
    decreases s.len(),
{
    if s.len() > 0 && is_space(s[0]) {
        trim_start(s.drop_first())
    } else {
        s
    }
}

/// `s` without the white space at its end.
pub open spec fn trim_end(s: Seq<char>) -> Seq<char>
    decreases s.len(),
{
    if s.len() > 0 && is_space(s.last()) {
        trim_end(s.drop_last())
    } else {
        s
    }
}

/// `s` without its NUL characters.
pub open spec fn without_nul(s: Seq<char>) -> Seq<char>
    decreases s.len(),
{
    if s.len() == 0 {
        s
    } else if s.last() == '\0' {
        without_nul(s.drop_last())
    } else {
        without_nul(s.drop_last()).push(s.last())
    }
}

/// `s` with one blank in place of each run of white space.
pub open spec fn collapse(s: Seq<char>) -> Seq<char>
    decreases s.len(),
{
    if s.len() == 0 {
        s
    } else {
        let front = collapse(s.drop_last());
        if !is_space(s.last()) {
            front.push(s.last())
        } else if front.len() > 0 && front.last() == ' ' {
            front
        } else {
            front.push(' ')
        }
    }
}

/// `s` without the blanks and `=` at its end.
pub open spec fn strip_end(s: Seq<char>) -> Seq<char>
    decreases s.len(),
{
    if s.len() > 0 && (s.last() == ' ' || s.last() == '=') {
        strip_end(s.drop_last())
    } else {
        s
    }
}

/// The cleaned form of a text in upper case: trimmed at both ends, without
/// NUL characters, with one blank for each run of white space, and without
/// blanks and `=` at the end.
pub open spec fn cleaned(s: Seq<char>) -> Seq<char> {
    strip_end(collapse(without_nul(trim_end(trim_start(s)))))
}

/// Cleans a text in upper case.
pub fn clean(text: &[char]) -> (r: Vec<char>)
    ensures
        r@ == cleaned(text@),
{
    assert(text@.subrange(0, text@.len() as int) =~= text@);
    let mut from: usize = 0;
    while from < text.len() && space(text[from])
        invariant
            from <= text.len(),
            trim_start(text@) == trim_start(text@.subrange(from as int, text@.len() as int)),
        decreases text.len() - from,
    {
        assert(text@.subrange(from as int, text@.len() as int).drop_first() =~= text@.subrange(
            from + 1,
            text@.len() as int,
        ));
        from += 1;
    }
    let mut to: usize = text.len();
    while to > from && space(text[to - 1])
        invariant
            from <= to <= text.len(),
            trim_end(text@.subrange(from as int, text@.len() as int)) == trim_end(
                text@.subrange(from as int, to as int),
            ),
        decreases to,
    {
        assert(text@.subrange(from as int, to as int).drop_last() =~= text@.subrange(
            from as int,
            to - 1,
        ));
        to -= 1;
    }
    let ghost trimmed = text@.subrange(from as int, to as int);
    assert(trimmed == trim_end(trim_start(text@)));
    let mut kept: Vec<char> = Vec::new();
    let mut i: usize = from;
    while i < to
        invariant
            from <= i <= to <= text.len(),
            trimmed == text@.subrange(from as int, to as int),
            kept@ == without_nul(trimmed.take(i - from)),
        decreases to - i,
    {
        assert(trimmed.take(i + 1 - from).drop_last() =~= trimmed.take(i - from));
        if text[i] != '\0' {
            kept.push(text[i]);
        }
        i += 1;
    }
    assert(trimmed.take(to - from) =~= trimmed);
    let mut out: Vec<char> = Vec::new();
    let mut j: usize = 0;
    while j < kept.len()
        invariant
            j <= kept.len(),
            out@ == collapse(kept@.take(j as int)),
        decreases kept.len() - j,
    {
        assert(kept@.take(j + 1).drop_last() =~= kept@.take(j as int));
        let c = kept[j];
        if !space(c) {
            out.push(c);
        } else if out.len() == 0 || out[out.len() - 1] != ' ' {
            out.push(' ');
        }
        j += 1;
    }
    assert(kept@.take(kept@.len() as int) =~= kept@);
    let ghost collapsed = out@;
    while out.len() > 0 && (out[out.len() - 1] == ' ' || out[out.len() - 1] == '=')
        invariant
            strip_end(collapsed) == strip_end(out@),
        decreases out.len(),
    {
        out.pop();
    }
    out
}

/// The position of the first character of `text` that is no white space,
/// or its length if there is none.
pub(crate) fn skip_space(text: &[char]) -> (from: usize)
    ensures
        from <= text.len(),
        text@.subrange(from as int, text@.len() as int) == trim_start(text@),
{
    assert(text@.subrange(0, text@.len() as int) =~= text@);
    let mut from: usize = 0;
    while from < text.len() && space(text[from])
        invariant
            from <= text.len(),
            trim_start(text@) == trim_start(text@.subrange(from as int, text@.len() as int)),
        decreases text.len() - from,
    {
        assert(text@.subrange(from as int, text@.len() as int).drop_first() =~= text@.subrange(
            from + 1,
            text@.len() as int,
        ));
        from += 1;
    }
    from
}

/// The cleaned characters of a text in upper case.
pub fn clean_str(text: &str) -> (r: Vec<char>)
    ensures
        r@ == cleaned(text@),
{
    let chars = chars_of(text);
    clean(chars.as_slice())
}

} // verus!
