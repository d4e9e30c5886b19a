//! Scrubbing of secrets from log lines.
//!
//! A log message may carry credentials in `password=`, `api_key=` or `token=`
//! pairs, or a bearer token after `Bearer `.  Each is masked with a fixed run
//! of asterisks before the line is written out.

use crate::text::{find_char, find_sub, lemma_spec_find_props, spec_find, spec_find_char, spec_match_at};
use vstd::prelude::*;
use vstd::string::{StrSliceExecFns, StringExecFns};

verus! {

/// A character ending the value that follows a credential label: whitespace,
/// and for query-style pairs the `&` separator too.
pub open spec fn is_value_delim(c: char, amp: bool) -> bool {
    c == ' ' || c == '\n' || c == '\r' || c == '\t' || (amp && c == '&')
}

/// The least position at or after `from` holding a value delimiter.
pub open spec fn spec_find_delim(s: Seq<char>, from: int, amp: bool) -> Option<int>
    recommends
        0 <= from,
    decreases s.len() - from,
        when 0 <= from
{
    if from >= s.len() {
        None
    } else if is_value_delim(s[from], amp) {
        Some(from)
    } else {
        spec_find_delim(s, from + 1, amp)
    }
}

/// The least position at or after `from` holding a value delimiter, computed.
fn find_delim(s: &str, from: usize, amp: bool) -> (r: Option<usize>)
    ensures
        match r {
            Some(i) => from <= i && i < s@.len() && spec_find_delim(s@, from as int, amp) == Some(
                i as int,
            ),
            None => spec_find_delim(s@, from as int, amp) is None,
        },
{
    let ls = s.unicode_len();
    let mut i: usize = from;
    if from >= ls {
        return None;
    }
    while i < ls
        invariant
            ls == s@.len(),
            from <= i <= ls,
            spec_find_delim(s@, from as int, amp) == spec_find_delim(s@, i as int, amp),
        decreases ls - i,
    {
        let c = s.get_char(i);
        if c == ' ' || c == '\n' || c == '\r' || c == '\t' || (amp && c == '&') {
            return Some(i);
        }
        i = i + 1;
    }
    None
}

/// `s` with the value following the first occurrence of `label` masked: the
/// run from the end of the label to the next delimiter (or the end of the
/// line) becomes a fixed run of asterisks.  Without an occurrence, or with an
/// empty value, `s` is unchanged.
pub open spec fn spec_mask_after(s: Seq<char>, label: Seq<char>, amp: bool) -> Seq<char> {
    match spec_find(s, label, 0) {
        None => s,
        Some(i) => {
            let start = i + label.len();
            let end = match spec_find_delim(s, start, amp) {
                Some(e) => e,
                None => s.len() as int,
            };
            if end > start {
                s.take(start) + "********"@ + s.skip(end)
            } else {
                s
            }
        },
    }
}

/// Masks the value after the first occurrence of `label`.
fn mask_after(s: &str, label: &str, amp: bool) -> (r: String)
    ensures
        r@ == spec_mask_after(s@, label@, amp),
{
    match find_sub(s, label, 0) {
        None => s.to_owned(),
        Some(i) => {
            proof {
                lemma_spec_find_props(s@, label@, 0);
            }
            let ls = s.unicode_len();
            let start = i + label.unicode_len();
            let end = match find_delim(s, start, amp) {
                Some(e) => e,
                None => ls,
            };
            if end > start {
                let mut r = s.substring_char(0, start).to_owned();
                r.append("********");
                r.append(s.substring_char(end, ls));
                proof {
                    assert(s@.subrange(0, start as int) =~= s@.take(start as int));
                    assert(s@.subrange(end as int, ls as int) =~= s@.skip(end as int));
                    assert(r@ =~= spec_mask_after(s@, label@, amp));
                }
                r
            } else {
                s.to_owned()
            }
        },
    }
}

/// `s` with a bearer token masked: the run after the first `Bearer ` up to
/// the next whitespace is replaced by asterisks, but only when it contains a
/// dot — the shape of a structured token.  Otherwise `s` is unchanged.
pub open spec fn spec_mask_bearer(s: Seq<char>) -> Seq<char> {
    match spec_find(s, "Bearer "@, 0) {
        None => s,
        Some(i) => {
            let start = i + "Bearer "@.len();
            let end = match spec_find_delim(s, start, false) {
                Some(e) => e,
                None => s.len() as int,
            };
            if end > start && (exists|j: int| start <= j < end && s[j] == '.') {
                s.take(start) + "********"@ + s.skip(end)
            } else {
                s
            }
        },
    }
}

/// Masks a structured bearer token.
fn mask_bearer(s: &str) -> (r: String)
    ensures
        r@ == spec_mask_bearer(s@),
{
    match find_sub(s, "Bearer ", 0) {
        None => s.to_owned(),
        Some(i) => {
            proof {
                lemma_spec_find_props(s@, "Bearer "@, 0);
            }
            let ls = s.unicode_len();
            let start = i + "Bearer ".unicode_len();
            let end = match find_delim(s, start, false) {
                Some(e) => e,
                None => ls,
            };
            let has_dot = match find_char(s, '.', start) {
                Some(j) => j < end,
                None => false,
            };
            proof {
                lemma_spec_find_char_range(s@, '.', start as int, end as int);
            }
            if end > start && has_dot {
                let mut r = s.substring_char(0, start).to_owned();
                r.append("********");
                r.append(s.substring_char(end, ls));
                proof {
                    assert(s@.subrange(0, start as int) =~= s@.take(start as int));
                    assert(s@.subrange(end as int, ls as int) =~= s@.skip(end as int));
                    assert(r@ =~= spec_mask_bearer(s@));
                }
                r
            } else {
                s.to_owned()
            }
        },
    }
}

/// A character search settles whether the character occurs in a range.
proof fn lemma_spec_find_char_range(s: Seq<char>, c: char, from: int, end: int)
    requires
        0 <= from,
    ensures
        (exists|j: int| from <= j < end && j < s.len() && s[j] == c) <==> (match spec_find_char(
            s,
            c,
            from,
        ) {
            Some(j) => j < end,
            None => false,
        }),
    decreases s.len() - from,
{
    if from < s.len() && s[from] != c {
        lemma_spec_find_char_range(s, c, from + 1, end);
    }
}

/// The whole scrub: query-style `password=`, `api_key=` and `token=` values,
/// then a bearer token, each masked in turn.
pub open spec fn spec_sanitize(s: Seq<char>) -> Seq<char> {
    spec_mask_bearer(
        spec_mask_after(
            spec_mask_after(spec_mask_after(s, "password="@, true), "api_key="@, true),
            "token="@,
            true,
        ),
    )
}

/// Masks credentials in a log message; see [`spec_sanitize`] for exactly
/// which runs are replaced.
pub fn sanitize_log_message(message: &str) -> (r: String)
    ensures
        r@ == spec_sanitize(message@),
{
    let step1 = mask_after(message, "password=", true);
    let step2 = mask_after(step1.as_str(), "api_key=", true);
    let step3 = mask_after(step2.as_str(), "token=", true);
    mask_bearer(step3.as_str())
}

} // verus!
