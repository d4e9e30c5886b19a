//! Verified character-level string utilities shared across the crate.

use vstd::prelude::*;
use vstd::string::{StrSliceExecFns, StringExecFns};

verus! {

/// Whether two string slices hold the same characters.
pub fn str_eq(a: &str, b: &str) -> (r: bool)
    ensures
        r == (a@ == b@),
{
    let la = a.unicode_len();
    let lb = b.unicode_len();
    if la != lb {
        return false;
    }
    let mut i: usize = 0;
    while i < la
        invariant
            la == a@.len(),
            lb == b@.len(),
            la == lb,
            0 <= i <= la,
            forall|j: int| 0 <= j < i ==> a@[j] == b@[j],
        decreases la - i,
    {
        if a.get_char(i) != b.get_char(i) {
            return false;
        }
        i = i + 1;
    }
    proof {
        assert(a@ =~= b@);
    }
    true
}

/// Whether `pat` occurs in `s` starting at position `i`.
pub open spec fn spec_match_at(s: Seq<char>, pat: Seq<char>, i: int) -> bool {
    0 <= i && i + pat.len() <= s.len() && s.subrange(i, i + pat.len()) == pat
}

/// The least position at or after `from` where `pat` occurs in `s`, if any.
pub open spec fn spec_find(s: Seq<char>, pat: Seq<char>, from: int) -> Option<int>
    recommends
        0 <= from,
    decreases s.len() - from,
        when 0 <= from
{
    if from + pat.len() > s.len() {
        None
    } else if pat.len() == 0 {
        Some(from)
    } else if spec_match_at(s, pat, from) {
        Some(from)
    } else {
        spec_find(s, pat, from + 1)
    }
}

/// Whether `pat` occurs anywhere in `s`.
pub open spec fn spec_contains_sub(s: Seq<char>, pat: Seq<char>) -> bool {
    exists|i: int| spec_match_at(s, pat, i)
}

/// A found position is a match, and nothing earlier (at or after `from`) is.
pub proof fn lemma_spec_find_props(s: Seq<char>, pat: Seq<char>, from: int)
    requires
        0 <= from,
    ensures
        match spec_find(s, pat, from) {
            Some(i) => from <= i && spec_match_at(s, pat, i) && forall|j: int|
                from <= j < i ==> !spec_match_at(s, pat, j),
            None => forall|j: int| from <= j ==> !spec_match_at(s, pat, j),
        },
    decreases s.len() - from,
{
    if from + pat.len() > s.len() {
        assert forall|j: int| from <= j implies !spec_match_at(s, pat, j) by {}
    } else if pat.len() == 0 {
        assert(s.subrange(from, from) =~= pat);
    } else if spec_match_at(s, pat, from) {
    } else {
        lemma_spec_find_props(s, pat, from + 1);
    }
}

/// Whether `pat` occurs in `s` at position `i`, checked character by
/// character.
fn match_at(s: &str, pat: &str, i: usize) -> (r: bool)
    requires
        i + pat@.len() <= s@.len(),
        s@.len() <= usize::MAX,
    ensures
        r == spec_match_at(s@, pat@, i as int),
{
    let lp = pat.unicode_len();
    let mut j: usize = 0;
    while j < lp
        invariant
            lp == pat@.len(),
            i + lp <= s@.len(),
            s@.len() <= usize::MAX,
            0 <= j <= lp,
            forall|j2: int| 0 <= j2 < j ==> s@[i + j2] == pat@[j2],
        decreases lp - j,
    {
        if s.get_char(i + j) != pat.get_char(j) {
            proof {
                assert(s@.subrange(i as int, i + lp)[j as int] == s@[i + j]);
                assert(s@.subrange(i as int, i + lp) != pat@);
            }
            return false;
        }
        j = j + 1;
    }
    proof {
        assert(s@.subrange(i as int, i + lp) =~= pat@);
    }
    true
}

/// The least position at or after `from` where `pat` occurs in `s`.
pub fn find_sub(s: &str, pat: &str, from: usize) -> (r: Option<usize>)
    ensures
        match r {
            Some(i) => from <= i && spec_find(s@, pat@, from as int) == Some(i as int),
            None => spec_find(s@, pat@, from as int) is None,
        },
{
    let ls = s.unicode_len();
    let lp = pat.unicode_len();
    if from > ls || lp > ls - from {
        return None;
    }
    let mut i: usize = from;
    while i <= ls - lp
        invariant
            ls == s@.len(),
            lp == pat@.len(),
            lp <= ls,
            from <= i,
            i <= ls - lp + 1,
            spec_find(s@, pat@, from as int) == spec_find(s@, pat@, i as int),
        decreases ls - i,
    {
        if match_at(s, pat, i) {
            return Some(i);
        }
        proof {
            if pat@.len() == 0 {
                assert(s@.subrange(i as int, i as int) =~= pat@);
            }
            assert(spec_find(s@, pat@, i as int) == spec_find(s@, pat@, i + 1));
        }
        i = i + 1;
    }
    None
}

/// Whether `s` ends with the characters of `x`.
pub open spec fn spec_ends_with(s: Seq<char>, x: Seq<char>) -> bool {
    x.len() <= s.len() && s.subrange(s.len() - x.len(), s.len() as int) == x
}

/// Whether `s` ends with `suffix`.
pub fn str_ends_with(s: &str, suffix: &str) -> (r: bool)
    ensures
        r == spec_ends_with(s@, suffix@),
{
    let ls = s.unicode_len();
    let lx = suffix.unicode_len();
    if lx > ls {
        return false;
    }
    let r = match_at(s, suffix, ls - lx);
    proof {
        assert(spec_match_at(s@, suffix@, ls - lx) == spec_ends_with(s@, suffix@));
    }
    r
}

/// The ASCII lower-case image of one character; others are untouched.
pub open spec fn lower_char(c: char) -> char {
    if 'A' <= c && c <= 'Z' {
        ((c as u32) + 32) as char
    } else {
        c
    }
}

/// The ASCII lower-case image of a character sequence.
pub open spec fn lower_seq(s: Seq<char>) -> Seq<char> {
    s.map_values(|c: char| lower_char(c))
}

/// Whether `a` and `b` agree up to ASCII case.
pub fn str_eq_ignore_ascii_case(a: &str, b: &str) -> (r: bool)
    ensures
        r == (lower_seq(a@) == lower_seq(b@)),
{
    let la = a.unicode_len();
    let lb = b.unicode_len();
    if la != lb {
        proof {
            assert(lower_seq(a@).len() == a@.len());
            assert(lower_seq(b@).len() == b@.len());
        }
        return false;
    }
    let mut i: usize = 0;
    while i < la
        invariant
            la == a@.len(),
            lb == b@.len(),
            la == lb,
            0 <= i <= la,
            forall|j: int| 0 <= j < i ==> lower_char(a@[j]) == lower_char(b@[j]),
        decreases la - i,
    {
        let ca = a.get_char(i) as u32;
        let cb = b.get_char(i) as u32;
        let fa = if 65 <= ca && ca <= 90 {
            ca + 32
        } else {
            ca
        };
        let fb = if 65 <= cb && cb <= 90 {
            cb + 32
        } else {
            cb
        };
        if fa != fb {
            proof {
                assert(lower_seq(a@)[i as int] == lower_char(a@[i as int]));
                assert(lower_seq(b@)[i as int] == lower_char(b@[i as int]));
            }
            return false;
        }
        i = i + 1;
    }
    proof {
        assert(lower_seq(a@) =~= lower_seq(b@));
    }
    true
}

/// The character of one decimal digit.
pub open spec fn digit_char(d: nat) -> char {
    (('0' as u32) + d) as char
}

/// The decimal digits of `n`, most significant first.
pub open spec fn spec_udec(n: nat) -> Seq<char>
    decreases n,
{
    if n < 10 {
        seq![digit_char(n)]
    } else {
        spec_udec(n / 10) + seq![digit_char(n % 10)]
    }
}

/// The one-character string of a decimal digit.
fn digit_str(d: u64) -> (r: &'static str)
    requires
        d < 10,
    ensures
        r@ == seq![digit_char(d as nat)],
{
    proof {
        reveal_strlit("0");
        reveal_strlit("1");
        reveal_strlit("2");
        reveal_strlit("3");
        reveal_strlit("4");
        reveal_strlit("5");
        reveal_strlit("6");
        reveal_strlit("7");
        reveal_strlit("8");
        reveal_strlit("9");
    }
    let r = if d == 0 {
        "0"
    } else if d == 1 {
        "1"
    } else if d == 2 {
        "2"
    } else if d == 3 {
        "3"
    } else if d == 4 {
        "4"
    } else if d == 5 {
        "5"
    } else if d == 6 {
        "6"
    } else if d == 7 {
        "7"
    } else if d == 8 {
        "8"
    } else {
        "9"
    };
    proof {
        assert(r@ =~= seq![digit_char(d as nat)]);
    }
    r
}

/// The least position at or after `from` holding the character `c`.
pub open spec fn spec_find_char(s: Seq<char>, c: char, from: int) -> Option<int>
    recommends
        0 <= from,
    decreases s.len() - from,
        when 0 <= from
{
    if from >= s.len() {
        None
    } else if s[from] == c {
        Some(from)
    } else {
        spec_find_char(s, c, from + 1)
    }
}

/// The least position at or after `from` holding `c`, computed.
pub fn find_char(s: &str, c: char, from: usize) -> (r: Option<usize>)
    ensures
        match r {
            Some(i) => from <= i && spec_find_char(s@, c, from as int) == Some(i as int),
            None => spec_find_char(s@, c, from as int) is None,
        },
{
    let ls = s.unicode_len();
    let mut i: usize = from;
    if from >= ls {
        return None;
    }
    while i < ls
        invariant
            ls == s@.len(),
            from <= i <= ls,
            spec_find_char(s@, c, from as int) == spec_find_char(s@, c, i as int),
        decreases ls - i,
    {
        if s.get_char(i) == c {
            return Some(i);
        }
        i = i + 1;
    }
    None
}

/// A found character position is in range and holds the character; nothing
/// earlier (at or after `from`) does.
pub proof fn lemma_spec_find_char_props(s: Seq<char>, c: char, from: int)
    requires
        0 <= from,
    ensures
        match spec_find_char(s, c, from) {
            Some(i) => from <= i < s.len() && s[i] == c && forall|j: int|
                from <= j < i ==> s[j] != c,
            None => forall|j: int| from <= j < s.len() ==> s[j] != c,
        },
    decreases s.len() - from,
{
    if from < s.len() && s[from] != c {
        lemma_spec_find_char_props(s, c, from + 1);
    }
}

/// ASCII whitespace, as the trimming here understands it.
pub open spec fn is_space(c: char) -> bool {
    c == ' ' || c == '\t' || c == '\n' || c == '\r'
}

/// `s` with leading and trailing ASCII whitespace removed.
pub open spec fn spec_trim(s: Seq<char>) -> Seq<char>
    decreases s.len(),
{
    if s.len() == 0 {
        s
    } else if is_space(s[0]) {
        spec_trim(s.drop_first())
    } else if is_space(s.last()) {
        spec_trim(s.drop_last())
    } else {
        s
    }
}

/// Removes leading and trailing ASCII whitespace.
pub fn trim_spaces(s: &str) -> (r: String)
    ensures
        r@ == spec_trim(s@),
    decreases s@.len(),
{
    let ls = s.unicode_len();
    if ls == 0 {
        return s.to_owned();
    }
    if is_space_char(s.get_char(0)) {
        let rest = s.substring_char(1, ls);
        proof {
            assert(rest@ =~= s@.drop_first());
        }
        trim_spaces(rest)
    } else if is_space_char(s.get_char(ls - 1)) {
        let rest = s.substring_char(0, ls - 1);
        proof {
            assert(rest@ =~= s@.drop_last());
        }
        trim_spaces(rest)
    } else {
        s.to_owned()
    }
}

/// Whether `c` is ASCII whitespace.
pub fn is_space_char(c: char) -> (r: bool)
    ensures
        r == is_space(c),
{
    c == ' ' || c == '\t' || c == '\n' || c == '\r'
}

/// `s` with every occurrence of `pat` replaced by `rep`, scanning once from
/// the left as the standard string replacement does.
pub open spec fn spec_replace_all(s: Seq<char>, pat: Seq<char>, rep: Seq<char>) -> Seq<char>
    decreases s.len(),
{
    if pat.len() == 0 {
        s
    } else {
        match spec_find(s, pat, 0) {
            None => s,
            Some(i) => if 0 <= i && i + pat.len() <= s.len() {
                s.take(i) + rep + spec_replace_all(s.skip(i + pat.len()), pat, rep)
            } else {
                s
            },
        }
    }
}

/// Replaces every occurrence of `pat` in `s` by `rep`.
pub fn replace_all(s: &str, pat: &str, rep: &str) -> (r: String)
    requires
        pat@.len() > 0,
    ensures
        r@ == spec_replace_all(s@, pat@, rep@),
    decreases s@.len(),
{
    match find_sub(s, pat, 0) {
        None => s.to_owned(),
        Some(i) => {
            proof {
                lemma_spec_find_props(s@, pat@, 0);
            }
            let lp = pat.unicode_len();
            let ls = s.unicode_len();
            let mut r = s.substring_char(0, i).to_owned();
            r.append(rep);
            let rest = s.substring_char(i + lp, ls);
            proof {
                assert(rest@ =~= s@.skip(i + pat@.len()));
            }
            let tail = replace_all(rest, pat, rep);
            r.append(tail.as_str());
            proof {
                assert(s@.subrange(0, i as int) =~= s@.take(i as int));
                assert(r@ =~= spec_replace_all(s@, pat@, rep@));
            }
            r
        },
    }
}

/// The decimal rendering of `n`.
pub fn u64_to_string(n: u64) -> (r: String)
    ensures
        r@ == spec_udec(n as nat),
    decreases n,
{
    if n < 10 {
        digit_str(n).to_owned()
    } else {
        let mut r = u64_to_string(n / 10);
        r.append(digit_str(n % 10));
        proof {
            assert(r@ =~= spec_udec(n as nat));
        }
        r
    }
}

} // verus!
