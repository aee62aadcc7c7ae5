use vstd::prelude::*;
use vstd::string::{StrSliceExecFns, StringExecFns};

verus! {

/// `s` with every occurrence of `pattern` removed, scanning left to right
/// and never re-examining text already copied out.
pub open spec fn pattern_removed(s: Seq<char>, pattern: Seq<char>) -> Seq<char>
    recommends
        pattern.len() > 0,
    decreases s.len(),
{
    if s.len() == 0 {
        s
    } else if pattern.len() > 0 && s.len() >= pattern.len() && s.take(pattern.len() as int)
        == pattern {
        pattern_removed(s.skip(pattern.len() as int), pattern)
    } else {
        seq![s[0]] + pattern_removed(s.skip(1), pattern)
    }
}

/// Response text with markdown code-fence markers removed: first the opening
/// fence with its language tag, then any remaining bare fences.
pub open spec fn strip_fences_spec(s: Seq<char>) -> Seq<char> {
    pattern_removed(pattern_removed(s, "```json"@), "```"@)
}

/// Whether `pattern` occurs in `s` starting at character position `i`.
fn has_pattern_at(s: &str, i: usize, pattern: &str) -> (r: bool)
    requires
        i <= s@.len(),
    ensures
        r == (i + pattern@.len() <= s@.len() && s@.subrange(
            i as int,
            i + pattern@.len(),
        ) == pattern@),
{
    let n = s.unicode_len();
    let m = pattern.unicode_len();
    if m > n - i {
        return false;
    }
    for k in 0..m
        invariant
            n == s@.len(),
            m == pattern@.len(),
            i + m <= n,
            forall|l: int| 0 <= l < k ==> s@[i + l] == pattern@[l],
    {
        if s.get_char(i + k) != pattern.get_char(k) {
            proof {
                assert(s@.subrange(i as int, i + pattern@.len())[k as int] != pattern@[k as int]);
            }
            return false;
        }
    }
    proof {
        assert(s@.subrange(i as int, i + pattern@.len()) =~= pattern@);
    }
    true
}

/// Copies `s` while skipping every occurrence of `pattern`.
fn remove_pattern(s: &str, pattern: &str) -> (r: String)
    requires
        pattern@.len() > 0,
    ensures
        r@ == pattern_removed(s@, pattern@),
{
    let mut out = String::new();
    let n = s.unicode_len();
    let m = pattern.unicode_len();
    let mut i: usize = 0;
    proof {
        assert(s@.skip(0) =~= s@);
    }
    while i < n
        invariant
            n == s@.len(),
            m == pattern@.len(),
            m > 0,
            i <= n,
            out@ + pattern_removed(s@.skip(i as int), pattern@) == pattern_removed(s@, pattern@),
        decreases n - i,
    {
        let ghost rest = s@.skip(i as int);
        if has_pattern_at(s, i, pattern) {
            proof {
                assert(rest.take(m as int) =~= s@.subrange(i as int, i + m));
                assert(rest.skip(m as int) =~= s@.skip(i + m));
            }
            i += m;
        } else {
            let piece = s.substring_char(i, i + 1);
            proof {
                if rest.len() >= m && rest.take(m as int) == pattern@ {
                    assert(rest.take(m as int) =~= s@.subrange(i as int, i + m));
                    assert(false);
                }
                assert(seq![rest[0]] =~= s@.subrange(i as int, i + 1));
                assert(rest.skip(1) =~= s@.skip(i + 1));
                assert((out@ + piece@) + pattern_removed(s@.skip(i + 1), pattern@) =~= out@ + (
                piece@ + pattern_removed(s@.skip(i + 1), pattern@)));
            }
            out.append(piece);
            i += 1;
        }
    }
    proof {
        assert(s@.skip(n as int).len() == 0);
        assert(out@ + pattern_removed(s@.skip(n as int), pattern@) =~= out@);
    }
    out
}

/// Removes markdown code-fence markers from backend response text: the
/// opening fence with its language tag and any remaining bare fences.
pub fn strip_code_fences(s: &str) -> (r: String)
    ensures
        r@ == strip_fences_spec(s@),
{
    proof {
        reveal_strlit("```json");
        reveal_strlit("```");
    }
    let first = remove_pattern(s, "```json");
    remove_pattern(first.as_str(), "```")
}

} // verus!
