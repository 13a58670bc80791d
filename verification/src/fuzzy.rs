//! Case-insensitive subsequence ("fuzzy") matching.
//!
//! A query matches a candidate string when the query's characters appear,
//! in order but not necessarily contiguously, in the candidate. Characters
//! are compared case-insensitively by folding the ASCII letters `A`..`Z`
//! onto their lowercase counterparts; other characters compare by scalar
//! value.

use vstd::prelude::*;
use vstd::string::StrSliceExecFns;

verus! {

/// Scalar value of a character with ASCII uppercase folded to lowercase.
pub open spec fn fold(c: char) -> int {
    if 65 <= c as u32 && c as u32 <= 90 {
        c as u32 + 32
    } else {
        c as u32 as int
    }
}

/// The query `q` appears, case-insensitively, as a (not necessarily
/// contiguous) subsequence of `s`.
pub open spec fn is_fuzzy_match(q: Seq<char>, s: Seq<char>) -> bool
    decreases s.len(),
{
    if q.len() == 0 {
        true
    } else if s.len() == 0 {
        false
    } else if fold(q[0]) == fold(s[0]) {
        is_fuzzy_match(q.skip(1), s.skip(1)) || is_fuzzy_match(q, s.skip(1))
    } else {
        is_fuzzy_match(q, s.skip(1))
    }
}

/// Dropping the head of a matched query still matches: a subsequence of a
/// subsequence is a subsequence.
proof fn lemma_match_drop_head(q: Seq<char>, s: Seq<char>)
    requires
        q.len() > 0,
        is_fuzzy_match(q, s),
    ensures
        is_fuzzy_match(q.skip(1), s),
    decreases s.len(),
{
    if s.len() > 0 {
        if fold(q[0]) == fold(s[0]) {
            if is_fuzzy_match(q.skip(1), s.skip(1)) {
                lemma_match_weaken_s(q.skip(1), s);
            } else {
                lemma_match_drop_head(q, s.skip(1));
                lemma_match_weaken_s(q.skip(1), s);
            }
        } else {
            lemma_match_drop_head(q, s.skip(1));
            lemma_match_weaken_s(q.skip(1), s);
        }
    }
}

/// A query matched by the tail of `s` is matched by `s` itself.
proof fn lemma_match_weaken_s(q: Seq<char>, s: Seq<char>)
    requires
        s.len() > 0,
        is_fuzzy_match(q, s.skip(1)),
    ensures
        is_fuzzy_match(q, s),
{
}

/// When the heads agree, consuming both is complete: the greedy step
/// loses no match.
proof fn lemma_match_greedy(q: Seq<char>, s: Seq<char>)
    requires
        q.len() > 0,
        s.len() > 0,
        fold(q[0]) == fold(s[0]),
    ensures
        is_fuzzy_match(q, s) <==> is_fuzzy_match(q.skip(1), s.skip(1)),
    decreases s.len(),
{
    if is_fuzzy_match(q, s) {
        if !is_fuzzy_match(q.skip(1), s.skip(1)) {
            // Then the match went through s.skip(1) with the whole of q.
            assert(is_fuzzy_match(q, s.skip(1)));
            lemma_match_drop_head(q, s.skip(1));
        }
    }
}

/// Case-insensitive lexicographic order on character sequences, by the
/// folded scalar values; a prefix comes before its extensions.
pub open spec fn lex_leq(a: Seq<char>, b: Seq<char>) -> bool
    decreases a.len(),
{
    if a.len() == 0 {
        true
    } else if b.len() == 0 {
        false
    } else if fold(a[0]) < fold(b[0]) {
        true
    } else if fold(a[0]) > fold(b[0]) {
        false
    } else {
        lex_leq(a.skip(1), b.skip(1))
    }
}

/// The order is total: any two sequences compare one way or the other.
pub proof fn lemma_lex_total(a: Seq<char>, b: Seq<char>)
    ensures
        lex_leq(a, b) || lex_leq(b, a),
    decreases a.len(),
{
    if a.len() > 0 && b.len() > 0 && fold(a[0]) == fold(b[0]) {
        lemma_lex_total(a.skip(1), b.skip(1));
    }
}

/// The order is transitive.
pub proof fn lemma_lex_trans(a: Seq<char>, b: Seq<char>, c: Seq<char>)
    requires
        lex_leq(a, b),
        lex_leq(b, c),
    ensures
        lex_leq(a, c),
    decreases a.len(),
{
    if a.len() > 0 && b.len() > 0 && c.len() > 0 && fold(a[0]) == fold(b[0]) && fold(b[0]) == fold(
        c[0],
    ) {
        lemma_lex_trans(a.skip(1), b.skip(1), c.skip(1));
    }
}

/// Compare two strings in the case-insensitive lexicographic order.
pub fn str_lex_leq(a: &str, b: &str) -> (r: bool)
    ensures
        r == lex_leq(a@, b@),
{
    let a_len = a.unicode_len();
    let b_len = b.unicode_len();
    let mut i: usize = 0;
    proof {
        assert(a@.skip(0) =~= a@);
        assert(b@.skip(0) =~= b@);
    }
    while i < a_len && i < b_len
        invariant
            i <= a_len,
            i <= b_len,
            a_len == a@.len(),
            b_len == b@.len(),
            lex_leq(a@, b@) == lex_leq(a@.skip(i as int), b@.skip(i as int)),
        decreases a_len - i,
    {
        let fa = fold_char(a.get_char(i));
        let fb = fold_char(b.get_char(i));
        if fa < fb {
            return true;
        }
        if fa > fb {
            return false;
        }
        proof {
            assert(a@.skip(i as int).skip(1) =~= a@.skip(i + 1));
            assert(b@.skip(i as int).skip(1) =~= b@.skip(i + 1));
        }
        i = i + 1;
    }
    i == a_len
}

/// Fold one character to its comparison scalar.
fn fold_char(c: char) -> (r: u32)
    ensures
        r == fold(c),
{
    let u = c as u32;
    if 65 <= u && u <= 90 {
        u + 32
    } else {
        u
    }
}

/// Decide whether `q` is a case-insensitive subsequence of `s`, by the
/// greedy left-to-right scan.
pub fn fuzzy_match(q: &str, s: &str) -> (r: bool)
    ensures
        r == is_fuzzy_match(q@, s@),
{
    let q_len = q.unicode_len();
    let s_len = s.unicode_len();
    let mut qi: usize = 0;
    let mut si: usize = 0;
    proof {
        assert(q@.skip(0) =~= q@);
        assert(s@.skip(0) =~= s@);
    }
    while si < s_len
        invariant
            qi <= q_len,
            si <= s_len,
            q_len == q@.len(),
            s_len == s@.len(),
            is_fuzzy_match(q@, s@) <==> is_fuzzy_match(q@.skip(qi as int), s@.skip(si as int)),
        decreases s_len - si,
    {
        if qi < q_len {
            let qc = q.get_char(qi);
            let sc = s.get_char(si);
            if fold_char(qc) == fold_char(sc) {
                proof {
                    lemma_match_greedy(q@.skip(qi as int), s@.skip(si as int));
                    assert(q@.skip(qi as int).skip(1) =~= q@.skip(qi + 1));
                    assert(s@.skip(si as int).skip(1) =~= s@.skip(si + 1));
                }
                qi = qi + 1;
                si = si + 1;
            } else {
                proof {
                    assert(s@.skip(si as int).skip(1) =~= s@.skip(si + 1));
                }
                si = si + 1;
            }
        } else {
            proof {
                assert(is_fuzzy_match(q@.skip(qi as int), s@.skip(si as int)));
                assert(is_fuzzy_match(q@.skip(qi as int), s@.skip(s_len as int)));
            }
            si = s_len;
        }
    }
    qi == q_len
}

} // verus!
