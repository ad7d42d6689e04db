//! Trimming white space from text, as `str::trim` does.
use vstd::prelude::*;

verus! {

/// A character with the Unicode `White_Space` property, which is what
/// `char::is_whitespace` tests.
pub open spec fn is_white_space(c: char) -> bool {
    ||| ('\u{9}' <= c <= '\u{d}')
    ||| c == ' '
    ||| c == '\u{85}'
    ||| c == '\u{a0}'
    ||| c == '\u{1680}'
    ||| ('\u{2000}' <= c <= '\u{200a}')
    ||| c == '\u{2028}'
    ||| c == '\u{2029}'
    ||| c == '\u{202f}'
    ||| c == '\u{205f}'
    ||| c == '\u{3000}'
}

/// `s` without its leading white space.
pub open spec fn trim_start_text(s: Seq<char>) -> Seq<char>
    decreases s.len(),
{
    if s.len() > 0 && is_white_space(s[0]) {
        trim_start_text(s.drop_first())
    } else {
        s
    }
}

/// `s` without its trailing white space.
pub open spec fn trim_end_text(s: Seq<char>) -> Seq<char>
    decreases s.len(),
{
    if s.len() > 0 && is_white_space(s.last()) {
        trim_end_text(s.drop_last())
    } else {
        s
    }
}

/// `s` without its leading and trailing white space.
pub open spec fn trimmed_text(s: Seq<char>) -> Seq<char> {
    trim_end_text(trim_start_text(s))
}

/// `str::trim`: the text without leading and trailing characters for which
/// `char::is_whitespace` holds. Claimed: the result is `trimmed_text(text)`.
#[verifier::external_body]
pub(crate) fn trim(text: &str) -> (trimmed: &str)
    ensures
        trimmed@ == trimmed_text(text@),
{
    text.trim()
}

proof fn lemma_trim_start(s: Seq<char>) -> (start: int)
    ensures
        0 <= start <= s.len(),
        trim_start_text(s) == s.subrange(start, s.len() as int),
        forall|k: int| 0 <= k < start ==> is_white_space(#[trigger] s[k]),
        start < s.len() ==> !is_white_space(s[start]),
    decreases s.len(),
{
    if s.len() > 0 && is_white_space(s[0]) {
        let rest = lemma_trim_start(s.drop_first());
        assert(s.drop_first().subrange(rest, s.drop_first().len() as int) =~= s.subrange(
            rest + 1,
            s.len() as int,
        ));
        assert forall|k: int| 0 <= k < rest + 1 implies is_white_space(#[trigger] s[k]) by {
            if k > 0 {
                assert(s[k] == s.drop_first()[k - 1]);
            }
        }
        rest + 1
    } else {
        assert(s.subrange(0, s.len() as int) =~= s);
        0
    }
}

proof fn lemma_trim_end(s: Seq<char>) -> (end: int)
    ensures
        0 <= end <= s.len(),
        trim_end_text(s) == s.subrange(0, end),
        forall|k: int| end <= k < s.len() ==> is_white_space(#[trigger] s[k]),
        end > 0 ==> !is_white_space(s[end - 1]),
    decreases s.len(),
{
    if s.len() > 0 && is_white_space(s.last()) {
        let end = lemma_trim_end(s.drop_last());
        assert(s.drop_last().subrange(0, end) =~= s.subrange(0, end));
        assert forall|k: int| end <= k < s.len() implies is_white_space(#[trigger] s[k]) by {
            if k < s.len() - 1 {
                assert(s[k] == s.drop_last()[k]);
            }
        }
        end
    } else {
        assert(s.subrange(0, s.len() as int) =~= s);
        s.len() as int
    }
}

/// Trimming removes only white space, from both ends, and leaves a text that
/// neither starts nor ends with white space: the trimmed text is the part of
/// `s` between positions `start` and `end`, and everything outside is white
/// space.
pub proof fn lemma_trimmed_text(s: Seq<char>) -> (bounds: (int, int))
    ensures
        0 <= bounds.0 <= bounds.1 <= s.len(),
        trimmed_text(s) == s.subrange(bounds.0, bounds.1),
        forall|k: int| 0 <= k < bounds.0 ==> is_white_space(#[trigger] s[k]),
        forall|k: int| bounds.1 <= k < s.len() ==> is_white_space(#[trigger] s[k]),
        trimmed_text(s).len() > 0 ==> !is_white_space(trimmed_text(s)[0]) && !is_white_space(
            trimmed_text(s).last(),
        ),
        (forall|k: int| 0 <= k < s.len() ==> is_white_space(#[trigger] s[k])) ==> trimmed_text(s).len()
            == 0,
{
    let start = lemma_trim_start(s);
    let middle = trim_start_text(s);
    let end = lemma_trim_end(middle);
    assert(middle.subrange(0, end) =~= s.subrange(start, start + end));
    assert forall|k: int| start + end <= k < s.len() implies is_white_space(#[trigger] s[k]) by {
        assert(s[k] == middle[k - start]);
    }
    if trimmed_text(s).len() > 0 {
        assert(trimmed_text(s)[0] == middle[0]);
        assert(middle[0] == s[start]);
    }
    (start, start + end)
}

} // verus!
