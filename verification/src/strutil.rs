//! Verified string utilities: non-overlapping leftmost substring replacement,
//! single-character substitution, and trailing-separator stripping.

use vstd::prelude::*;
use vstd::string::*;

verus! {

/// True iff `pat` occurs in `s` starting at position `i`.
pub open spec fn match_at(s: Seq<char>, pat: Seq<char>, i: int) -> bool {
    0 <= i && i + pat.len() <= s.len() && s.subrange(i, i + pat.len() as int) == pat
}

/// True iff `pat` occurs somewhere in `s`.
pub open spec fn contains_seq(s: Seq<char>, pat: Seq<char>) -> bool {
    exists|i: int| match_at(s, pat, i)
}

/// True iff `s` starts with `prefix`.
pub open spec fn starts_with(s: Seq<char>, prefix: Seq<char>) -> bool {
    match_at(s, prefix, 0)
}

/// Replacement of every non-overlapping occurrence of `pat` in `s` by `rep`,
/// scanning left to right; replacement text is not rescanned.
pub open spec fn replace_seq(s: Seq<char>, pat: Seq<char>, rep: Seq<char>) -> Seq<char>
    decreases s.len(),
{
    if pat.len() == 0 || s.len() < pat.len() {
        s
    } else if s.subrange(0, pat.len() as int) == pat {
        rep + replace_seq(s.skip(pat.len() as int), pat, rep)
    } else {
        seq![s[0]] + replace_seq(s.skip(1), pat, rep)
    }
}

/// Decide whether `pat` occurs in `s` at position `i`.
pub fn matches_at(s: &str, pat: &str, i: usize) -> (r: bool)
    requires
        i + pat@.len() <= s@.len(),
        s@.len() <= usize::MAX,
    ensures
        r == match_at(s@, pat@, i as int),
{
    let pat_len = pat.unicode_len();
    let mut j: usize = 0;
    while j < pat_len
        invariant
            j <= pat_len,
            pat_len == pat@.len(),
            i + pat@.len() <= s@.len(),
            s@.len() <= usize::MAX,
            forall|k: int| 0 <= k < j ==> s@[i + k] == pat@[k],
        decreases pat_len - j,
    {
        if s.get_char(i + j) != pat.get_char(j) {
            assert(s@.subrange(i as int, i + pat@.len() as int)[j as int] != pat@[j as int]);
            return false;
        }
        j += 1;
    }
    assert(s@.subrange(i as int, i + pat@.len() as int) =~= pat@);
    true
}

/// Replace every non-overlapping occurrence of `pat` in `s` by `rep`,
/// scanning left to right.
pub fn replace_all(s: &str, pat: &str, rep: &str) -> (r: String)
    requires
        pat@.len() >= 1,
    ensures
        r@ == replace_seq(s@, pat@, rep@),
{
    let s_len = s.unicode_len();
    let pat_len = pat.unicode_len();
    let mut out = String::new();
    let mut i: usize = 0;
    proof {
        assert(s@.subrange(0, s@.len() as int) =~= s@);
        assert(Seq::<char>::empty() + replace_seq(s@, pat@, rep@) =~= replace_seq(
            s@,
            pat@,
            rep@,
        ));
    }
    while i < s_len
        invariant
            i <= s_len,
            s_len == s@.len(),
            pat_len == pat@.len(),
            pat@.len() >= 1,
            replace_seq(s@, pat@, rep@) == out@ + replace_seq(
                s@.subrange(i as int, s@.len() as int),
                pat@,
                rep@,
            ),
        decreases s_len - i,
    {
        let ghost tail = s@.subrange(i as int, s@.len() as int);
        if pat_len <= s_len - i && matches_at(s, pat, i) {
            proof {
                assert(tail.subrange(0, pat@.len() as int) =~= s@.subrange(
                    i as int,
                    i + pat@.len() as int,
                ));
                assert(tail.skip(pat@.len() as int) =~= s@.subrange(
                    i + pat@.len() as int,
                    s@.len() as int,
                ));
            }
            out.append(rep);
            i += pat_len;
        } else {
            proof {
                if pat_len <= s_len - i {
                    assert(tail.subrange(0, pat@.len() as int) =~= s@.subrange(
                        i as int,
                        i + pat@.len() as int,
                    ));
                }
                assert(seq![tail[0]] =~= s@.subrange(i as int, i + 1));
                assert(tail.skip(1) =~= s@.subrange(i + 1, s@.len() as int));
            }
            let c = s.substring_char(i, i + 1);
            out.append(c);
            i += 1;
        }
    }
    proof {
        assert(s@.subrange(s@.len() as int, s@.len() as int) =~= Seq::<char>::empty());
        assert(out@ + Seq::<char>::empty() =~= out@);
    }
    out
}

/// An occurrence of `pat` in the suffix `s.skip(n)` is an occurrence in `s`,
/// shifted by `n`.
pub proof fn lemma_match_at_skip(s: Seq<char>, pat: Seq<char>, n: int, i: int)
    requires
        0 <= n <= s.len(),
        0 <= i,
    ensures
        match_at(s.skip(n), pat, i) == match_at(s, pat, n + i),
{
    if i + pat.len() <= s.len() - n {
        assert(s.skip(n).subrange(i, i + pat.len() as int) =~= s.subrange(
            n + i,
            n + i + pat.len() as int,
        ));
    }
}

/// Law: replacement in a string that contains no occurrence of the pattern
/// leaves the string unchanged.
pub proof fn lemma_replace_no_match(s: Seq<char>, pat: Seq<char>, rep: Seq<char>)
    requires
        pat.len() >= 1,
        !contains_seq(s, pat),
    ensures
        replace_seq(s, pat, rep) == s,
    decreases s.len(),
{
    if s.len() < pat.len() {
    } else {
        assert(!match_at(s, pat, 0));
        assert(s.subrange(0, pat.len() as int) != pat);
        assert forall|i: int| !match_at(s.skip(1), pat, i) by {
            if 0 <= i {
                lemma_match_at_skip(s, pat, 1, i);
                assert(!match_at(s, pat, 1 + i));
            }
        }
        lemma_replace_no_match(s.skip(1), pat, rep);
        assert(seq![s[0]] + s.skip(1) =~= s);
    }
}

/// Law: if the leftmost occurrence of the pattern starts at `k`, replacement
/// keeps the first `k` characters, substitutes the occurrence, and continues
/// in the remainder.
pub proof fn lemma_replace_first_match(s: Seq<char>, pat: Seq<char>, rep: Seq<char>, k: int)
    requires
        pat.len() >= 1,
        match_at(s, pat, k),
        forall|i: int| 0 <= i < k ==> !match_at(s, pat, i),
    ensures
        replace_seq(s, pat, rep) == s.subrange(0, k) + rep + replace_seq(
            s.skip(k + pat.len()),
            pat,
            rep,
        ),
    decreases k,
{
    if k == 0 {
        assert(s.subrange(0, pat.len() as int) == pat);
        assert(s.subrange(0, 0) + rep + replace_seq(s.skip(pat.len() as int), pat, rep) =~= rep
            + replace_seq(s.skip(pat.len() as int), pat, rep));
    } else {
        assert(!match_at(s, pat, 0));
        assert(s.len() >= k + pat.len() > pat.len());
        assert(s.subrange(0, pat.len() as int) != pat);
        lemma_match_at_skip(s, pat, 1, k - 1);
        assert forall|i: int| 0 <= i < k - 1 implies !match_at(s.skip(1), pat, i) by {
            lemma_match_at_skip(s, pat, 1, i);
        }
        lemma_replace_first_match(s.skip(1), pat, rep, k - 1);
        assert(seq![s[0]] + s.skip(1).subrange(0, k - 1) =~= s.subrange(0, k));
        assert(s.skip(1).skip(k - 1 + pat.len()) =~= s.skip(k + pat.len()));
        assert(seq![s[0]] + (s.skip(1).subrange(0, k - 1) + rep + replace_seq(
            s.skip(k + pat.len()),
            pat,
            rep,
        )) =~= s.subrange(0, k) + rep + replace_seq(s.skip(k + pat.len()), pat, rep));
    }
}

/// `s` with every occurrence of the character `from` replaced by `to`.
pub open spec fn map_char(s: Seq<char>, from: char, to: char) -> Seq<char> {
    s.map_values(|c: char| if c == from { to } else { c })
}

/// Replace every occurrence of the character `from` in `s` by the single
/// character of `to`.
pub fn replace_char(s: &str, from: char, to: &str) -> (r: String)
    requires
        to@.len() == 1,
    ensures
        r@ == map_char(s@, from, to@[0]),
{
    let s_len = s.unicode_len();
    let mut out = String::new();
    let mut i: usize = 0;
    while i < s_len
        invariant
            i <= s_len,
            s_len == s@.len(),
            to@.len() == 1,
            out@ == s@.subrange(0, i as int).map_values(
                |c: char| if c == from { to@[0] } else { c },
            ),
        decreases s_len - i,
    {
        let ghost prev = out@;
        let c = s.get_char(i);
        if c == from {
            out.append(to);
            proof {
                assert(to@ =~= seq![to@[0]]);
            }
        } else {
            let piece = s.substring_char(i, i + 1);
            out.append(piece);
            proof {
                assert(piece@ =~= seq![s@[i as int]]);
            }
        }
        proof {
            assert(s@.subrange(0, i + 1).map_values(
                |c: char| if c == from { to@[0] } else { c },
            ) =~= prev + seq![if s@[i as int] == from { to@[0] } else { s@[i as int] }]);
        }
        i += 1;
    }
    proof {
        assert(s@.subrange(0, s@.len() as int) =~= s@);
    }
    out
}

/// The concatenation of two string slices.
pub fn concat_str(a: &str, b: &str) -> (r: String)
    ensures
        r@ == a@ + b@,
{
    let mut r = String::from_str(a);
    r.append(b);
    r
}

/// `s` with every trailing occurrence of `sep` removed.
pub open spec fn strip_trailing(s: Seq<char>, sep: char) -> Seq<char>
    decreases s.len(),
{
    if s.len() > 0 && s.last() == sep {
        strip_trailing(s.drop_last(), sep)
    } else {
        s
    }
}

/// Law: stripping leaves no trailing occurrence of the separator.
pub proof fn lemma_strip_trailing_no_sep(s: Seq<char>, sep: char)
    ensures
        strip_trailing(s, sep).len() > 0 ==> strip_trailing(s, sep).last() != sep,
    decreases s.len(),
{
    if s.len() > 0 && s.last() == sep {
        lemma_strip_trailing_no_sep(s.drop_last(), sep);
    }
}

/// Remove every trailing occurrence of the character `sep` from `s`.
pub fn strip_trailing_char(s: &str, sep: char) -> (r: String)
    ensures
        r@ == strip_trailing(s@, sep),
{
    let s_len = s.unicode_len();
    let mut end: usize = s_len;
    proof {
        assert(s@.subrange(0, s@.len() as int) =~= s@);
    }
    while end > 0 && s.get_char(end - 1) == sep
        invariant
            end <= s_len,
            s_len == s@.len(),
            strip_trailing(s@, sep) == strip_trailing(s@.subrange(0, end as int), sep),
        decreases end,
    {
        proof {
            assert(s@.subrange(0, end as int).drop_last() =~= s@.subrange(0, end - 1));
        }
        end -= 1;
    }
    let ghost kept = s@.subrange(0, end as int);
    proof {
        assert(strip_trailing(kept, sep) == kept);
    }
    String::from_str(s.substring_char(0, end))
}

} // verus!
