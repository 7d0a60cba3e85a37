//! Whitespace trimming of model output. The result surfaced to a caller
//! never carries leading or trailing whitespace.

use vstd::prelude::*;

verus! {

/// Whether `c` has the Unicode `White_Space` property: the exact set of
/// code points that the standard library's trimming removes at the ends
/// of a string.
pub open spec fn is_whitespace_char(c: char) -> bool {
    ||| c == '\u{0009}'
    ||| c == '\u{000A}'
    ||| c == '\u{000B}'
    ||| c == '\u{000C}'
    ||| c == '\u{000D}'
    ||| c == '\u{0020}'
    ||| c == '\u{0085}'
    ||| c == '\u{00A0}'
    ||| c == '\u{1680}'
    ||| c == '\u{2000}'
    ||| c == '\u{2001}'
    ||| c == '\u{2002}'
    ||| c == '\u{2003}'
    ||| c == '\u{2004}'
    ||| c == '\u{2005}'
    ||| c == '\u{2006}'
    ||| c == '\u{2007}'
    ||| c == '\u{2008}'
    ||| c == '\u{2009}'
    ||| c == '\u{200A}'
    ||| c == '\u{2028}'
    ||| c == '\u{2029}'
    ||| c == '\u{202F}'
    ||| c == '\u{205F}'
    ||| c == '\u{3000}'
}

/// `s` without its leading whitespace.
pub open spec fn spec_trim_start(s: Seq<char>) -> Seq<char>
    decreases s.len(),
{
    if s.len() == 0 {
        s
    } else if is_whitespace_char(s[0]) {
        spec_trim_start(s.drop_first())
    } else {
        s
    }
}

/// `s` without its trailing whitespace.
pub open spec fn spec_trim_end(s: Seq<char>) -> Seq<char>
    decreases s.len(),
{
    if s.len() == 0 {
        s
    } else if is_whitespace_char(s.last()) {
        spec_trim_end(s.drop_last())
    } else {
        s
    }
}

/// `s` without leading and trailing whitespace.
pub open spec fn spec_trim(s: Seq<char>) -> Seq<char> {
    spec_trim_end(spec_trim_start(s))
}

/// Relies on `str::trim`: returns the slice with leading and trailing
/// whitespace removed, where whitespace is the Unicode `White_Space`
/// property — the set [`is_whitespace_char`] spells out.
#[verifier::external_body]
pub(crate) fn trim_whitespace(s: &str) -> (r: String)
    ensures
        r@ == spec_trim(s@),
{
    s.trim().to_owned()
}

proof fn lemma_trim_start_shape(s: Seq<char>)
    ensures
        spec_trim_start(s).len() <= s.len(),
        spec_trim_start(s) == s.subrange(s.len() - spec_trim_start(s).len(), s.len() as int),
        spec_trim_start(s).len() > 0 ==> !is_whitespace_char(spec_trim_start(s)[0]),
        forall|i: int|
            0 <= i < s.len() - spec_trim_start(s).len() ==> is_whitespace_char(#[trigger] s[i]),
    decreases s.len(),
{
    if s.len() == 0 {
        assert(spec_trim_start(s) =~= s.subrange(0, 0));
    } else if is_whitespace_char(s[0]) {
        lemma_trim_start_shape(s.drop_first());
        let t = spec_trim_start(s);
        assert(t == spec_trim_start(s.drop_first()));
        assert(t =~= s.subrange(s.len() - t.len(), s.len() as int));
        assert forall|i: int| 0 <= i < s.len() - t.len() implies is_whitespace_char(
            #[trigger] s[i],
        ) by {
            if i > 0 {
                assert(s[i] == s.drop_first()[i - 1]);
            }
        }
    } else {
        assert(spec_trim_start(s) =~= s.subrange(0, s.len() as int));
    }
}

proof fn lemma_trim_end_shape(s: Seq<char>)
    ensures
        spec_trim_end(s).len() <= s.len(),
        spec_trim_end(s) == s.subrange(0, spec_trim_end(s).len() as int),
        spec_trim_end(s).len() > 0 ==> !is_whitespace_char(spec_trim_end(s).last()),
        forall|i: int|
            spec_trim_end(s).len() <= i < s.len() ==> is_whitespace_char(#[trigger] s[i]),
    decreases s.len(),
{
    if s.len() == 0 {
        assert(spec_trim_end(s) =~= s.subrange(0, 0));
    } else if is_whitespace_char(s.last()) {
        lemma_trim_end_shape(s.drop_last());
        let t = spec_trim_end(s);
        assert(t == spec_trim_end(s.drop_last()));
        assert(t =~= s.subrange(0, t.len() as int));
        assert forall|i: int| t.len() <= i < s.len() implies is_whitespace_char(
            #[trigger] s[i],
        ) by {
            if i < s.len() - 1 {
                assert(s[i] == s.drop_last()[i]);
            }
        }
    } else {
        assert(spec_trim_end(s) =~= s.subrange(0, s.len() as int));
    }
}

/// Law: a trimmed string is clean — it never begins or ends with
/// whitespace, and it is empty exactly when the original held no
/// non-whitespace character at all.
pub proof fn lemma_trim_clean(s: Seq<char>)
    ensures
        spec_trim(s).len() > 0 ==> !is_whitespace_char(spec_trim(s)[0]),
        spec_trim(s).len() > 0 ==> !is_whitespace_char(spec_trim(s).last()),
        spec_trim(s).len() > 0 <==> exists|i: int|
            0 <= i < s.len() && !is_whitespace_char(#[trigger] s[i]),
{
    let a = spec_trim_start(s);
    let t = spec_trim(s);
    lemma_trim_start_shape(s);
    lemma_trim_end_shape(a);
    if t.len() > 0 {
        assert(t[0] == a[0]);
        let w = s.len() - a.len();
        assert(s[w] == a[0]);
        assert(!is_whitespace_char(s[w]));
    }
    if exists|i: int| 0 <= i < s.len() && !is_whitespace_char(#[trigger] s[i]) {
        let i = choose|i: int| 0 <= i < s.len() && !is_whitespace_char(#[trigger] s[i]);
        let w = s.len() - a.len();
        assert(i >= w);
        assert(a[i - w] == s[i]);
        assert(t.len() > 0) by {
            if t.len() == 0 {
                assert(is_whitespace_char(a[i - w]));
            }
        }
    }
}

/// Law: trimming is idempotent — trimming a trimmed string changes
/// nothing.
pub proof fn lemma_trim_idempotent(s: Seq<char>)
    ensures
        spec_trim(spec_trim(s)) == spec_trim(s),
{
    let t = spec_trim(s);
    lemma_trim_clean(s);
    if t.len() == 0 {
        assert(spec_trim_start(t) == t);
        assert(spec_trim_end(t) == t);
    } else {
        assert(spec_trim_start(t) == t);
        assert(spec_trim_end(t) == t);
    }
}

} // verus!
