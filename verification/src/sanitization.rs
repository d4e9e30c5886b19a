//! Pattern-based scrubbing of personal data from log lines: e-mail
//! addresses, long digit runs, and quoted credential values.
//!
//! The matching itself runs in the `regex` crate behind trusted wrappers;
//! each wrapper's result is a function of its input alone and carries a name
//! here, and the public scrub is specified exactly as their composition.

use vstd::prelude::*;
use vstd::string::{StrSliceExecFns, StringExecFns};

verus! {

/// `s` with every e-mail address replaced by `***@***.***`.
pub uninterp spec fn email_masked_of(s: Seq<char>) -> Seq<char>;

/// `s` with every run of 10 to 15 digits masked down to its first and last
/// three, `****` between them.
pub uninterp spec fn phone_masked_of(s: Seq<char>) -> Seq<char>;

/// `s` with every `password='…'` (or double-quoted) pair replaced by
/// `password=***`.
pub uninterp spec fn quoted_password_masked_of(s: Seq<char>) -> Seq<char>;

/// `s` with every `token='…'` (or double-quoted) pair replaced by
/// `token=***`.
pub uninterp spec fn quoted_token_masked_of(s: Seq<char>) -> Seq<char>;

/// A digit run masked to its first and last three characters with `****`
/// between them; anything shorter than three characters is left alone.
pub open spec fn spec_mask_digit_run(s: Seq<char>) -> Seq<char> {
    if s.len() >= 3 {
        s.take(3) + "****"@ + s.skip(s.len() - 3)
    } else {
        s
    }
}

/// Masks a matched digit run; the pattern hands this every match it found.
pub fn mask_digit_run(num: &str) -> (r: String)
    ensures
        r@ == spec_mask_digit_run(num@),
{
    let ln = num.unicode_len();
    if ln >= 3 {
        let mut r = num.substring_char(0, 3).to_owned();
        r.append("****");
        r.append(num.substring_char(ln - 3, ln));
        proof {
            assert(num@.subrange(0, 3) =~= num@.take(3));
            assert(num@.subrange(ln - 3, ln as int) =~= num@.skip(num@.len() - 3));
            assert(r@ =~= spec_mask_digit_run(num@));
        }
        r
    } else {
        num.to_owned()
    }
}

/// Relies on regex's `Regex::replace_all` over a fixed e-mail pattern: the
/// result depends on the line alone, and a line without a match — the empty
/// line among them — comes back unchanged.
#[verifier::external_body]
fn mask_emails(s: &str) -> (r: String)
    ensures
        r@ == email_masked_of(s@),
        s@.len() == 0 ==> r@ == s@,
{
    regex::Regex::new("[a-zA-Z0-9._%+-]+@[a-zA-Z0-9.-]+\\.[a-zA-Z]{2,}")
        .unwrap()
        .replace_all(s, "***@***.***")
        .to_string()
}

/// Relies on regex's `Regex::replace_all` over a fixed digit-run pattern;
/// every match is rewritten by the verified [`mask_digit_run`].
#[verifier::external_body]
fn mask_phones(s: &str) -> (r: String)
    ensures
        r@ == phone_masked_of(s@),
        s@.len() == 0 ==> r@ == s@,
{
    regex::Regex::new("\\b\\d{10,15}\\b")
        .unwrap()
        .replace_all(s, |caps: &regex::Captures| mask_digit_run(caps.get(0).unwrap().as_str()))
        .to_string()
}

/// Relies on regex's `Regex::replace_all` over a fixed quoted-password
/// pattern, replacing each match with a constant.
#[verifier::external_body]
fn mask_quoted_passwords(s: &str) -> (r: String)
    ensures
        r@ == quoted_password_masked_of(s@),
        s@.len() == 0 ==> r@ == s@,
{
    regex::Regex::new("(?i)password\\s*=\\s*['\"]([^'\"]+)['\"]")
        .unwrap()
        .replace_all(s, "password=***")
        .to_string()
}

/// Relies on regex's `Regex::replace_all` over a fixed quoted-token pattern,
/// replacing each match with a constant.
#[verifier::external_body]
fn mask_quoted_tokens(s: &str) -> (r: String)
    ensures
        r@ == quoted_token_masked_of(s@),
        s@.len() == 0 ==> r@ == s@,
{
    regex::Regex::new("(?i)token\\s*=\\s*['\"]([^'\"]+)['\"]")
        .unwrap()
        .replace_all(s, "token=***")
        .to_string()
}

/// Masks personal data in a log message: e-mail addresses, then long digit
/// runs, then quoted password and token values, in that order.
pub fn sanitize_log_message(message: &str) -> (r: String)
    ensures
        r@ == quoted_token_masked_of(
            quoted_password_masked_of(phone_masked_of(email_masked_of(message@))),
        ),
{
    let step1 = mask_emails(message);
    let step2 = mask_phones(step1.as_str());
    let step3 = mask_quoted_passwords(step2.as_str());
    mask_quoted_tokens(step3.as_str())
}

} // verus!
