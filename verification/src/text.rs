//! Character-level text helpers: equality, extraction, and the
//! leftmost, non-overlapping pattern replacement that template
//! substitution is built on.

use vstd::prelude::*;

verus! {

use vstd::string::StrSliceExecFns;

/// Compares two string slices by their character sequences.
pub fn str_eq(a: &str, b: &str) -> (r: bool)
    ensures
        r == (a@ == b@),
{
    let sa = a.to_owned();
    let sb = b.to_owned();
    sa == sb
}

/// Extracts the characters of a string slice, in order.
pub fn chars_of(s: &str) -> (r: Vec<char>)
    ensures
        r@ == s@,
{
    let n = s.unicode_len();
    let mut out: Vec<char> = Vec::new();
    let mut i: usize = 0;
    while i < n
        invariant
            n == s@.len(),
            i <= n,
            out@ == s@.subrange(0, i as int),
        decreases n - i,
    {
        out.push(s.get_char(i));
        i = i + 1;
        proof {
            assert(out@ =~= s@.subrange(0, i as int));
        }
    }
    proof {
        assert(out@ =~= s@);
    }
    out
}

/// Relies on `core::iter::Iterator::collect` for `String`: the collected
/// string holds exactly the characters of the vector, in order.
#[verifier::external_body]
pub fn string_from_chars(v: &Vec<char>) -> (r: String)
    ensures
        r@ == v@,
{
    v.iter().collect()
}

/// Whether `pat` occurs in `s` starting at position `i`.
pub open spec fn match_at(s: Seq<char>, pat: Seq<char>, i: int) -> bool {
    &&& 0 <= i
    &&& i + pat.len() <= s.len()
    &&& s.subrange(i, i + pat.len()) == pat
}

/// Whether `pat` occurs anywhere in `s`.
pub open spec fn occurs(s: Seq<char>, pat: Seq<char>) -> bool {
    exists|i: int| match_at(s, pat, i)
}

/// The result of replacing every leftmost, non-overlapping occurrence of
/// `pat` in `s` by `val`. An empty pattern leaves `s` unchanged.
pub open spec fn replace_spec(s: Seq<char>, pat: Seq<char>, val: Seq<char>) -> Seq<char>
    decreases s.len(),
{
    if pat.len() == 0 || s.len() == 0 {
        s
    } else if match_at(s, pat, 0) {
        val + replace_spec(s.skip(pat.len() as int), pat, val)
    } else {
        seq![s[0]] + replace_spec(s.skip(1), pat, val)
    }
}

/// A pattern that occurs nowhere is not replaced: the input comes back
/// verbatim.
pub proof fn lemma_replace_absent(s: Seq<char>, pat: Seq<char>, val: Seq<char>)
    requires
        !occurs(s, pat),
    ensures
        replace_spec(s, pat, val) == s,
    decreases s.len(),
{
    if pat.len() == 0 || s.len() == 0 {
    } else if match_at(s, pat, 0) {
        assert(occurs(s, pat));
    } else {
        assert forall|i: int| !match_at(s.skip(1), pat, i) by {
            if match_at(s.skip(1), pat, i) {
                assert(s.subrange(i + 1, i + 1 + pat.len()) =~= s.skip(1).subrange(
                    i,
                    i + pat.len(),
                ));
                assert(match_at(s, pat, i + 1));
            }
        }
        lemma_replace_absent(s.skip(1), pat, val);
        assert(replace_spec(s, pat, val) =~= s);
    }
}

/// Whether `pat` occurs in `s` starting at position `i`, decided
/// executably.
fn starts_with_at(s: &Vec<char>, i: usize, pat: &Vec<char>) -> (r: bool)
    requires
        i <= s@.len(),
    ensures
        r == match_at(s@, pat@, i as int),
{
    if pat.len() > s.len() - i {
        proof {
            assert(!match_at(s@, pat@, i as int));
        }
        return false;
    }
    let mut j: usize = 0;
    let mut m: usize = i;
    while j < pat.len()
        invariant
            i + pat@.len() <= s@.len(),
            s@.len() <= usize::MAX,
            j <= pat@.len(),
            m == i + j,
            forall|k: int| 0 <= k < j ==> s@[i + k] == pat@[k],
        decreases pat@.len() - j,
    {
        if s[m] != pat[j] {
            proof {
                assert(s@.subrange(i as int, i + pat@.len())[j as int] != pat@[j as int]);
            }
            return false;
        }
        j = j + 1;
        m = m + 1;
    }
    proof {
        assert(s@.subrange(i as int, i + pat@.len()) =~= pat@);
    }
    true
}

/// Appends every character of `v` to `out`.
pub(crate) fn push_all(out: &mut Vec<char>, v: &Vec<char>)
    ensures
        final(out)@ == old(out)@ + v@,
{
    let mut j: usize = 0;
    while j < v.len()
        invariant
            j <= v@.len(),
            out@ == old(out)@ + v@.subrange(0, j as int),
        decreases v@.len() - j,
    {
        out.push(v[j]);
        j = j + 1;
        proof {
            assert(out@ =~= old(out)@ + v@.subrange(0, j as int));
        }
    }
    proof {
        assert(old(out)@ + v@.subrange(0, v@.len() as int) =~= old(out)@ + v@);
    }
}

/// Replaces every leftmost, non-overlapping occurrence of `pat` in `s` by
/// `val`.
pub fn replace_all(s: &Vec<char>, pat: &Vec<char>, val: &Vec<char>) -> (r: Vec<char>)
    requires
        pat@.len() > 0,
    ensures
        r@ == replace_spec(s@, pat@, val@),
{
    let mut out: Vec<char> = Vec::new();
    let mut i: usize = 0;
    proof {
        assert(s@.skip(0) =~= s@);
        assert(Seq::<char>::empty() + replace_spec(s@, pat@, val@) =~= replace_spec(
            s@,
            pat@,
            val@,
        ));
    }
    while i < s.len()
        invariant
            pat@.len() > 0,
            i <= s@.len(),
            replace_spec(s@, pat@, val@) == out@ + replace_spec(s@.skip(i as int), pat@, val@),
        decreases s@.len() - i,
    {
        let ghost suffix = s@.skip(i as int);
        let ghost out_before = out@;
        if starts_with_at(s, i, pat) {
            proof {
                assert(suffix.subrange(0, pat@.len() as int) =~= s@.subrange(
                    i as int,
                    i + pat@.len(),
                ));
                assert(match_at(suffix, pat@, 0));
                assert(suffix.skip(pat@.len() as int) =~= s@.skip(i + pat@.len()));
            }
            push_all(&mut out, val);
            i = i + pat.len();
            proof {
                assert((out_before + val@) + replace_spec(s@.skip(i as int), pat@, val@)
                    =~= out_before + (val@ + replace_spec(s@.skip(i as int), pat@, val@)));
            }
        } else {
            proof {
                assert(suffix.len() > 0);
                assert(suffix[0] == s@[i as int]);
                if match_at(suffix, pat@, 0) {
                    assert(suffix.subrange(0, pat@.len() as int) =~= s@.subrange(
                        i as int,
                        i + pat@.len(),
                    ));
                    assert(match_at(s@, pat@, i as int));
                }
                assert(suffix.skip(1) =~= s@.skip(i + 1));
            }
            out.push(s[i]);
            i = i + 1;
            proof {
                assert((out_before + seq![s@[i - 1]]) + replace_spec(s@.skip(i as int), pat@, val@)
                    =~= out_before + (seq![s@[i - 1]] + replace_spec(s@.skip(i as int), pat@, val@)));
                assert(out@ =~= out_before + seq![s@[i - 1]]);
            }
        }
    }
    proof {
        assert(s@.skip(i as int) =~= Seq::<char>::empty());
        assert(out@ =~= out@ + replace_spec(s@.skip(i as int), pat@, val@));
    }
    out
}

} // verus!
