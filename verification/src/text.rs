//! Character-level utilities over the `Seq<char>` view of strings: ASCII
//! case folding, substring search, suffix tests and a case-insensitive
//! lexicographic order used to sort service names.

use vstd::prelude::*;

verus! {

/// ASCII lower-casing of one character; everything outside 'A'..='Z' is kept.
pub open spec fn lower_char(c: char) -> char {
    if 'A' <= c && c <= 'Z' {
        ((c as u8) + 32) as char
    } else {
        c
    }
}

/// The sequence with every character lowered.
pub open spec fn lower_seq(s: Seq<char>) -> Seq<char> {
    Seq::new(s.len(), |i: int| lower_char(s[i]))
}

/// `needle` occurs in `hay` starting at position `k`.
pub open spec fn matches_at(hay: Seq<char>, needle: Seq<char>, k: int) -> bool {
    0 <= k && k + needle.len() <= hay.len() && forall|j: int|
        0 <= j < needle.len() ==> hay[k + j] == needle[j]
}

/// `needle` occurs somewhere in `hay` as a contiguous run.
pub open spec fn seq_contains(hay: Seq<char>, needle: Seq<char>) -> bool {
    exists|k: int| matches_at(hay, needle, k)
}

/// `s` ends with `suffix`.
pub open spec fn seq_ends_with(s: Seq<char>, suffix: Seq<char>) -> bool {
    matches_at(s, suffix, s.len() - suffix.len())
}

/// Case-insensitive lexicographic order on character sequences.
pub open spec fn lex_lower_le(a: Seq<char>, b: Seq<char>) -> bool
    decreases a.len(),
{
    if a.len() == 0 {
        true
    } else if b.len() == 0 {
        false
    } else if lower_char(a[0]) == lower_char(b[0]) {
        lex_lower_le(a.drop_first(), b.drop_first())
    } else {
        (lower_char(a[0]) as u32) < (lower_char(b[0]) as u32)
    }
}

/// ASCII lower-casing, executable form.
pub fn ascii_lower(c: char) -> (r: char)
    ensures
        r == lower_char(c),
{
    let u = c as u32;
    if 65 <= u && u <= 90 {
        ((u + 32) as u8) as char
    } else {
        c
    }
}

/// Character-wise string equality.
pub fn str_eq(a: &str, b: &str) -> (r: bool)
    ensures
        r == (a@ == b@),
{
    let an = a.unicode_len();
    let bn = b.unicode_len();
    if an != bn {
        return false;
    }
    let mut i: usize = 0;
    while i < an
        invariant
            0 <= i <= an,
            an == a@.len(),
            an == b@.len(),
            forall|j: int| 0 <= j < i ==> a@[j] == b@[j],
        decreases an - i,
    {
        if a.get_char(i) != b.get_char(i) {
            return false;
        }
        i = i + 1;
    }
    proof {
        assert(a@ =~= b@);
    }
    true
}

/// Does `s` end with `suffix`, comparing characters exactly?
pub fn str_ends_with(s: &str, suffix: &str) -> (r: bool)
    ensures
        r == seq_ends_with(s@, suffix@),
{
    let n = s.unicode_len();
    let m = suffix.unicode_len();
    if m > n {
        return false;
    }
    let base = n - m;
    let mut j: usize = 0;
    while j < m
        invariant
            0 <= j <= m,
            m <= n,
            base == n - m,
            n == s@.len(),
            m == suffix@.len(),
            forall|t: int| 0 <= t < j ==> s@[base + t] == suffix@[t],
        decreases m - j,
    {
        if s.get_char(base + j) != suffix.get_char(j) {
            return false;
        }
        j = j + 1;
    }
    true
}

/// Does `hay` contain `needle`, ignoring ASCII case on both sides?
pub fn contains_lower(hay: &str, needle: &str) -> (r: bool)
    ensures
        r == seq_contains(lower_seq(hay@), lower_seq(needle@)),
{
    let hn = hay.unicode_len();
    let nn = needle.unicode_len();
    if nn > hn {
        return false;
    }
    let mut k: usize = 0;
    while k <= hn - nn
        invariant
            nn <= hn,
            hn == hay@.len(),
            nn == needle@.len(),
            0 <= k <= hn - nn + 1,
            forall|p: int| 0 <= p < k ==> !matches_at(lower_seq(hay@), lower_seq(needle@), p),
        decreases hn - nn + 1 - k,
    {
        let mut j: usize = 0;
        let mut all_eq = true;
        while all_eq && j < nn
            invariant
                0 <= j <= nn,
                nn <= hn,
                k <= hn - nn,
                hn == hay@.len(),
                nn == needle@.len(),
                all_eq ==> (forall|t: int|
                    0 <= t < j ==> lower_seq(hay@)[k + t] == lower_seq(needle@)[t]),
                !all_eq ==> !matches_at(lower_seq(hay@), lower_seq(needle@), k as int),
            decreases nn - j + (if all_eq { 1int } else { 0int }),
        {
            if ascii_lower(hay.get_char(k + j)) != ascii_lower(needle.get_char(j)) {
                proof {
                    assert(lower_seq(hay@)[k + j] != lower_seq(needle@)[j as int]);
                }
                all_eq = false;
            } else {
                j = j + 1;
            }
        }
        if all_eq {
            proof {
                assert(matches_at(lower_seq(hay@), lower_seq(needle@), k as int));
            }
            return true;
        }
        k = k + 1;
    }
    proof {
        assert(forall|p: int| #[trigger]
            matches_at(lower_seq(hay@), lower_seq(needle@), p) ==> 0 <= p <= hn - nn);
    }
    false
}

/// Does `hay` contain `needle`, comparing characters exactly?
pub fn str_contains(hay: &str, needle: &str) -> (r: bool)
    ensures
        r == seq_contains(hay@, needle@),
{
    let hn = hay.unicode_len();
    let nn = needle.unicode_len();
    if nn > hn {
        return false;
    }
    let mut k: usize = 0;
    while k <= hn - nn
        invariant
            nn <= hn,
            hn == hay@.len(),
            nn == needle@.len(),
            0 <= k <= hn - nn + 1,
            forall|p: int| 0 <= p < k ==> !matches_at(hay@, needle@, p),
        decreases hn - nn + 1 - k,
    {
        let mut j: usize = 0;
        let mut all_eq = true;
        while all_eq && j < nn
            invariant
                0 <= j <= nn,
                nn <= hn,
                k <= hn - nn,
                hn == hay@.len(),
                nn == needle@.len(),
                all_eq ==> (forall|t: int| 0 <= t < j ==> hay@[k + t] == needle@[t]),
                !all_eq ==> !matches_at(hay@, needle@, k as int),
            decreases nn - j + (if all_eq { 1int } else { 0int }),
        {
            if hay.get_char(k + j) != needle.get_char(j) {
                all_eq = false;
            } else {
                j = j + 1;
            }
        }
        if all_eq {
            proof {
                assert(matches_at(hay@, needle@, k as int));
            }
            return true;
        }
        k = k + 1;
    }
    proof {
        assert(forall|p: int| #[trigger] matches_at(hay@, needle@, p) ==> 0 <= p <= hn - nn);
    }
    false
}

/// Case-insensitive lexicographic comparison, executable form.
pub fn str_lex_lower_le(a: &str, b: &str) -> (r: bool)
    ensures
        r == lex_lower_le(a@, b@),
{
    let an = a.unicode_len();
    let bn = b.unicode_len();
    let mut i: usize = 0;
    proof {
        assert(a@.skip(0) =~= a@);
        assert(b@.skip(0) =~= b@);
    }
    loop
        invariant
            0 <= i <= an,
            i <= bn,
            an == a@.len(),
            bn == b@.len(),
            lex_lower_le(a@, b@) == lex_lower_le(a@.skip(i as int), b@.skip(i as int)),
        decreases an - i,
    {
        if i == an {
            proof {
                assert(a@.skip(i as int).len() == 0);
            }
            return true;
        }
        if i == bn {
            proof {
                assert(b@.skip(i as int).len() == 0);
                assert(a@.skip(i as int).len() > 0);
            }
            return false;
        }
        let ca = ascii_lower(a.get_char(i));
        let cb = ascii_lower(b.get_char(i));
        proof {
            assert(a@.skip(i as int)[0] == a@[i as int]);
            assert(b@.skip(i as int)[0] == b@[i as int]);
        }
        if ca != cb {
            return (ca as u32) < (cb as u32);
        }
        proof {
            assert(a@.skip(i as int).drop_first() =~= a@.skip(i + 1));
            assert(b@.skip(i as int).drop_first() =~= b@.skip(i + 1));
        }
        i = i + 1;
    }
}

/// The case-insensitive order is total: one direction always holds.
pub proof fn lemma_lex_lower_total(a: Seq<char>, b: Seq<char>)
    ensures
        lex_lower_le(a, b) || lex_lower_le(b, a),
    decreases a.len(),
{
    if a.len() == 0 || b.len() == 0 {
    } else if lower_char(a[0]) == lower_char(b[0]) {
        lemma_lex_lower_total(a.drop_first(), b.drop_first());
    }
}

/// The case-insensitive order is transitive.
pub proof fn lemma_lex_lower_trans(a: Seq<char>, b: Seq<char>, c: Seq<char>)
    requires
        lex_lower_le(a, b),
        lex_lower_le(b, c),
    ensures
        lex_lower_le(a, c),
    decreases a.len(),
{
    if a.len() == 0 || b.len() == 0 || c.len() == 0 {
    } else if lower_char(a[0]) == lower_char(b[0]) && lower_char(b[0]) == lower_char(c[0]) {
        lemma_lex_lower_trans(a.drop_first(), b.drop_first(), c.drop_first());
    }
}

/// Appends one character to a `String`.
/// Relies on `String::push`: the pushed character becomes the last of the string.
#[verifier::external_body]
pub fn push_char(s: &mut String, c: char)
    ensures
        final(s)@ == old(s)@.push(c),
{
    s.push(c);
}

} // verus!
