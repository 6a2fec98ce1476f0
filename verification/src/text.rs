//! Text helpers for the task-list core: Unicode whitespace trimming (used to
//! validate titles at creation time) and UTF-16 caret positions (used by the
//! deferred focus effect, since text-input cursor APIs measure offsets in
//! UTF-16 code units).

use vstd::prelude::*;

verus! {

/// The characters with the Unicode `White_Space` property, the set that
/// whitespace trimming strips from both ends of a title.
pub open spec fn is_unicode_ws(c: char) -> bool {
    ||| c == ' '
    ||| c == '\t'
    ||| c == '\n'
    ||| c == '\r'
    ||| c == '\u{000B}'
    ||| c == '\u{000C}'
    ||| c == '\u{0085}'
    ||| c == '\u{00A0}'
    ||| c == '\u{1680}'
    ||| ('\u{2000}' <= c && c <= '\u{200A}')
    ||| c == '\u{2028}'
    ||| c == '\u{2029}'
    ||| c == '\u{202F}'
    ||| c == '\u{205F}'
    ||| c == '\u{3000}'
}

/// `s` with its leading whitespace removed.
pub open spec fn trim_start_seq(s: Seq<char>) -> Seq<char>
    decreases s.len(),
{
    if s.len() > 0 && is_unicode_ws(s[0]) {
        trim_start_seq(s.drop_first())
    } else {
        s
    }
}

/// `s` with its trailing whitespace removed.
pub open spec fn trim_end_seq(s: Seq<char>) -> Seq<char>
    decreases s.len(),
{
    if s.len() > 0 && is_unicode_ws(s.last()) {
        trim_end_seq(s.drop_last())
    } else {
        s
    }
}

/// `s` with whitespace removed from both ends.
pub open spec fn trim_seq(s: Seq<char>) -> Seq<char> {
    trim_end_seq(trim_start_seq(s))
}

/// Whether `c` has the Unicode `White_Space` property.
pub fn is_ws_char(c: char) -> (r: bool)
    ensures
        r == is_unicode_ws(c),
{
    c == ' ' || c == '\t' || c == '\n' || c == '\r' || c == '\u{000B}' || c == '\u{000C}'
        || c == '\u{0085}' || c == '\u{00A0}' || c == '\u{1680}' || ('\u{2000}' <= c && c
        <= '\u{200A}') || c == '\u{2028}' || c == '\u{2029}' || c == '\u{202F}' || c == '\u{205F}'
        || c == '\u{3000}'
}

/// A prefix of whitespace followed by a non-whitespace character (or the end
/// of the string) pins down `trim_start_seq` as a subrange.
proof fn lemma_trim_start_subrange(s: Seq<char>, lo: int)
    requires
        0 <= lo <= s.len(),
        forall|k: int| 0 <= k < lo ==> is_unicode_ws(s[k]),
        lo == s.len() || !is_unicode_ws(s[lo]),
    ensures
        trim_start_seq(s) == s.subrange(lo, s.len() as int),
    decreases lo,
{
    if lo == 0 {
        assert(trim_start_seq(s) =~= s.subrange(0, s.len() as int));
    } else {
        let t = s.drop_first();
        assert(is_unicode_ws(s[0]));
        lemma_trim_start_subrange(t, lo - 1);
        assert(t.subrange(lo - 1, t.len() as int) =~= s.subrange(lo, s.len() as int));
    }
}

/// A suffix of whitespace preceded by a non-whitespace character (or the
/// start of the string) pins down `trim_end_seq` as a subrange.
proof fn lemma_trim_end_subrange(s: Seq<char>, hi: int)
    requires
        0 <= hi <= s.len(),
        forall|k: int| hi <= k < s.len() ==> is_unicode_ws(s[k]),
        hi == 0 || !is_unicode_ws(s[hi - 1]),
    ensures
        trim_end_seq(s) == s.subrange(0, hi),
    decreases s.len() - hi,
{
    if hi == s.len() {
        assert(trim_end_seq(s) =~= s.subrange(0, hi));
    } else {
        let t = s.drop_last();
        assert(is_unicode_ws(s.last()));
        lemma_trim_end_subrange(t, hi);
        assert(t.subrange(0, hi) =~= s.subrange(0, hi));
    }
}

/// Whitespace trimming, equivalent to stripping the Unicode `White_Space`
/// characters from both ends of the string.
pub fn trim(s: &str) -> (r: String)
    ensures
        r@ == trim_seq(s@),
{
    let n = s.unicode_len();
    let mut lo: usize = 0;
    while lo < n && is_ws_char(s.get_char(lo))
        invariant
            0 <= lo <= n,
            n == s@.len(),
            forall|k: int| 0 <= k < lo ==> is_unicode_ws(s@[k]),
        decreases n - lo,
    {
        lo = lo + 1;
    }
    let mut hi: usize = n;
    while hi > lo && is_ws_char(s.get_char(hi - 1))
        invariant
            0 <= lo <= hi <= n,
            n == s@.len(),
            forall|k: int| 0 <= k < lo ==> is_unicode_ws(s@[k]),
            lo == n || !is_unicode_ws(s@[lo as int]),
            forall|k: int| hi <= k < n ==> is_unicode_ws(s@[k]),
        decreases hi,
    {
        hi = hi - 1;
    }
    proof {
        lemma_trim_start_subrange(s@, lo as int);
        let t = s@.subrange(lo as int, s@.len() as int);
        if hi == lo {
            lemma_trim_end_subrange(t, 0);
        } else {
            lemma_trim_end_subrange(t, hi - lo);
        }
        assert(t.subrange(0, hi - lo) =~= s@.subrange(lo as int, hi as int));
    }
    let part = s.substring_char(lo, hi);
    String::from_str(part)
}

/// How many UTF-16 code units encode `c`: two for characters beyond the basic
/// multilingual plane (they need a surrogate pair), one otherwise.
pub open spec fn utf16_units(c: char) -> int {
    if (c as u32) < 0x10000 {
        1
    } else {
        2
    }
}

/// The length of `s` encoded in UTF-16 code units.
pub open spec fn utf16_len(s: Seq<char>) -> int
    decreases s.len(),
{
    if s.len() == 0 {
        0
    } else {
        utf16_len(s.drop_last()) + utf16_units(s.last())
    }
}

/// The caret offset placed at the end of a title: its UTF-16 length, clamped
/// to the `u32` range that text-input selection APIs accept.
pub open spec fn caret_at_end(s: Seq<char>) -> u32 {
    if utf16_len(s) <= u32::MAX {
        utf16_len(s) as u32
    } else {
        u32::MAX
    }
}

proof fn lemma_utf16_len_nonneg(s: Seq<char>)
    ensures
        utf16_len(s) >= 0,
    decreases s.len(),
{
    if s.len() > 0 {
        lemma_utf16_len_nonneg(s.drop_last());
    }
}

/// UTF-16 length only grows as a string is extended.
proof fn lemma_utf16_len_prefix(s: Seq<char>, i: int, j: int)
    requires
        0 <= i <= j <= s.len(),
    ensures
        utf16_len(s.subrange(0, i)) <= utf16_len(s.subrange(0, j)),
    decreases j - i,
{
    if i < j {
        lemma_utf16_len_prefix(s, i, j - 1);
        let p = s.subrange(0, j);
        assert(p.drop_last() =~= s.subrange(0, j - 1));
        assert(utf16_len(s.subrange(0, j)) == utf16_len(s.subrange(0, j - 1)) + utf16_units(
            p.last(),
        ));
    }
}

/// The caret offset at the end of `s`: the UTF-16 length of `s`, saturating
/// at `u32::MAX` (the widest offset a text-input selection API can take).
pub fn utf16_caret(s: &str) -> (r: u32)
    ensures
        r == caret_at_end(s@),
{
    let n = s.unicode_len();
    let mut i: usize = 0;
    let mut sum: u64 = 0;
    while i < n
        invariant
            0 <= i <= n,
            n == s@.len(),
            sum == utf16_len(s@.subrange(0, i as int)),
            sum <= u32::MAX as u64 + 1,
        decreases n - i,
    {
        if sum >= u32::MAX as u64 {
            proof {
                lemma_utf16_len_prefix(s@, i as int, n as int);
                assert(s@.subrange(0, n as int) =~= s@);
            }
            return u32::MAX;
        }
        let c = s.get_char(i);
        let add: u64 = if (c as u32) < 0x10000 {
            1
        } else {
            2
        };
        proof {
            let p = s@.subrange(0, i + 1);
            assert(p.drop_last() =~= s@.subrange(0, i as int));
            assert(p.last() == s@[i as int]);
        }
        sum = sum + add;
        i = i + 1;
    }
    proof {
        assert(s@.subrange(0, n as int) =~= s@);
        lemma_utf16_len_nonneg(s@);
    }
    if sum > u32::MAX as u64 {
        u32::MAX
    } else {
        sum as u32
    }
}

} // verus!
