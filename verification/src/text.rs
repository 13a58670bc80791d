//! Small string helpers: single-character edits on `String` and the last
//! path segment of a `/`-separated path.

use vstd::prelude::*;
use vstd::string::StrSliceExecFns;
use vstd::string::StringExecFns;

verus! {

/// Relies on std's String::push: appends the given character to the end
/// of the string.
#[verifier::external_body]
pub fn str_push(s: &mut String, c: char)
    ensures
        final(s)@ == old(s)@.push(c),
{
    s.push(c);
}

/// Relies on std's String::pop: removes the last character and returns
/// it, or returns nothing and leaves the string as it is when it is empty.
#[verifier::external_body]
pub fn str_pop(s: &mut String) -> (r: Option<char>)
    ensures
        old(s)@.len() == 0 ==> r is None && final(s)@ == old(s)@,
        old(s)@.len() > 0 ==> r == Some(old(s)@.last()) && final(s)@ == old(s)@.drop_last(),
{
    s.pop()
}

/// The suffix of `s` after its last `/`; the whole of `s` when it holds
/// no `/`; empty when `s` ends with `/`.
pub open spec fn last_segment_of(s: Seq<char>) -> Seq<char>
    decreases s.len(),
{
    if s.len() == 0 {
        s
    } else if s.last() == '/' {
        Seq::<char>::empty()
    } else {
        last_segment_of(s.drop_last()).push(s.last())
    }
}

proof fn lemma_last_segment_suffix(s: Seq<char>, k: int)
    requires
        0 <= k <= s.len(),
        forall|i: int| k <= i < s.len() ==> s[i] != '/',
        k > 0 ==> s[k - 1] == '/',
    ensures
        last_segment_of(s) == s.skip(k),
    decreases s.len(),
{
    if s.len() == k {
        if k > 0 {
            assert(s.last() == '/');
            assert(s.skip(k) =~= Seq::<char>::empty());
        } else {
            assert(s.skip(0) =~= s);
        }
    } else {
        assert(s.last() != '/');
        lemma_last_segment_suffix(s.drop_last(), k);
        assert(last_segment_of(s.drop_last()).push(s.last()) =~= s.skip(k));
    }
}

/// `s` with its trailing `/` characters removed.
pub open spec fn strip_trailing_slashes(s: Seq<char>) -> Seq<char>
    decreases s.len(),
{
    if s.len() > 0 && s.last() == '/' {
        strip_trailing_slashes(s.drop_last())
    } else {
        s
    }
}

/// The final component of a `/`-separated path, read as a file name:
/// trailing slashes are ignored, and what follows the last remaining
/// `/` is the name. Empty for a bare root or an empty path.
pub open spec fn file_name_of(s: Seq<char>) -> Seq<char> {
    last_segment_of(strip_trailing_slashes(s))
}

/// Return the final path component of `s`, ignoring trailing `/`.
pub fn file_name(s: &str) -> (r: String)
    ensures
        r@ == file_name_of(s@),
{
    let len = s.unicode_len();
    let mut end: usize = len;
    proof {
        assert(s@.take(len as int) =~= s@);
    }
    while end > 0 && s.get_char(end - 1) == '/'
        invariant
            end <= len,
            len == s@.len(),
            strip_trailing_slashes(s@) == strip_trailing_slashes(s@.take(end as int)),
        decreases end,
    {
        proof {
            assert(s@.take(end as int).drop_last() =~= s@.take(end - 1));
        }
        end = end - 1;
    }
    proof {
        assert(strip_trailing_slashes(s@.take(end as int)) == s@.take(end as int));
        assert(s@.subrange(0, end as int) =~= s@.take(end as int));
    }
    let trimmed = s.substring_char(0, end);
    last_segment(trimmed)
}

/// Return the last path segment of `s`: what follows the final `/`.
pub fn last_segment(s: &str) -> (r: String)
    ensures
        r@ == last_segment_of(s@),
{
    let len = s.unicode_len();
    let mut start: usize = len;
    while start > 0 && s.get_char(start - 1) != '/'
        invariant
            0 <= start <= len,
            len == s@.len(),
            forall|i: int| start <= i < s@.len() ==> s@[i] != '/',
        decreases start,
    {
        start = start - 1;
    }
    proof {
        lemma_last_segment_suffix(s@, start as int);
        assert(s@.subrange(start as int, len as int) =~= s@.skip(start as int));
    }
    let seg = s.substring_char(start, len);
    String::from_str(seg)
}

} // verus!
