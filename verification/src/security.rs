//! Request security: cross-site request forgery checks and their
//! configuration, and the cookie parsing they rest on.

use crate::text::{
    find_char, lemma_spec_find_char_props, replace_all, spec_find_char, spec_replace_all,
    spec_trim, str_eq, trim_spaces,
};
use core::marker::PhantomData;
use rand::Rng;
use vstd::prelude::*;
use vstd::string::{StrSliceExecFns, StringExecFns};

verus! {

/// A security check that failed.
#[derive(Debug)]
pub enum SecurityError {
    /// The request carried a forgery token that does not match.
    InvalidCsrfToken,
    /// The request carried no forgery token.
    MissingCsrfToken,
    /// Input validation rejected a field; the text says why.
    ValidationFailed(String),
    /// Some other security check failed; the text says which.
    SecurityCheckFailed(String),
}

impl SecurityError {
    /// A readable description of the failure.
    pub fn message(&self) -> (r: String)
        ensures
            match self {
                SecurityError::InvalidCsrfToken => r@ == "CSRF token 无效"@,
                SecurityError::MissingCsrfToken => r@ == "缺少 CSRF token"@,
                SecurityError::ValidationFailed(why) => r@ == "输入验证失败: "@ + why@,
                SecurityError::SecurityCheckFailed(why) => r@ == "安全检查失败: "@
                    + why@,
            },
    {
        match self {
            SecurityError::InvalidCsrfToken => "CSRF token 无效".to_owned(),
            SecurityError::MissingCsrfToken => "缺少 CSRF token".to_owned(),
            SecurityError::ValidationFailed(why) => {
                let mut r = "输入验证失败: ".to_owned();
                r.append(why.as_str());
                r
            },
            SecurityError::SecurityCheckFailed(why) => {
                let mut r = "安全检查失败: ".to_owned();
                r.append(why.as_str());
                r
            },
        }
    }
}

/// Settings of the forgery check: where the token travels and whether the
/// check is on at all.
#[derive(Debug)]
pub struct CsrfConfig {
    pub cookie_name: String,
    pub header_name: String,
    pub token_length: usize,
    pub enable_protection: bool,
}

impl Default for CsrfConfig {
    /// The usual cookie and header names, tokens of 32 characters, and the
    /// protection switched on.
    fn default() -> (r: Self)
        ensures
            r.cookie_name@ == "XSRF-TOKEN"@,
            r.header_name@ == "X-XSRF-TOKEN"@,
            r.token_length == 32,
            r.enable_protection,
    {
        CsrfConfig {
            cookie_name: "XSRF-TOKEN".to_owned(),
            header_name: "X-XSRF-TOKEN".to_owned(),
            token_length: 32,
            enable_protection: true,
        }
    }
}

impl Clone for CsrfConfig {
    fn clone(&self) -> (r: Self)
        ensures
            r.cookie_name@ == self.cookie_name@,
            r.header_name@ == self.header_name@,
            r.token_length == self.token_length,
            r.enable_protection == self.enable_protection,
    {
        CsrfConfig {
            cookie_name: self.cookie_name.clone(),
            header_name: self.header_name.clone(),
            token_length: self.token_length,
            enable_protection: self.enable_protection,
        }
    }
}

/// The forgery-check middleware layer: carries the settings towards the
/// service that will run the check; the request type is phantom.
pub struct CsrfLayer<T> {
    pub config: CsrfConfig,
    pub _marker: PhantomData<T>,
}

impl<T> CsrfLayer<T> {
    /// Wraps the settings into a layer.
    pub fn new(config: CsrfConfig) -> (r: Self)
        ensures
            r.config.cookie_name@ == config.cookie_name@,
            r.config.header_name@ == config.header_name@,
            r.config.token_length == config.token_length,
            r.config.enable_protection == config.enable_protection,
    {
        CsrfLayer { config, _marker: PhantomData }
    }
}

/// The percent-decoding applied to a cookie value: `%3D` back to `=` and
/// `%2B` back to `+`, in that order.
pub open spec fn spec_decode_cookie(v: Seq<char>) -> Seq<char> {
    spec_replace_all(spec_replace_all(v, "%3D"@, "="@), "%2B"@, "+"@)
}

/// What one `;`-separated piece of a cookie header yields for `name`: its
/// decoded value when, after trimming, the part before the first `=` is
/// exactly `name`; nothing otherwise.
pub open spec fn spec_cookie_piece(piece: Seq<char>, name: Seq<char>) -> Option<Seq<char>> {
    let t = spec_trim(piece);
    match spec_find_char(t, '=', 0) {
        Some(e) => if 0 <= e < t.len() && t.take(e) == name {
            Some(spec_decode_cookie(t.skip(e + 1)))
        } else {
            None
        },
        None => None,
    }
}

/// The value the cookie header `s` carries for `name`: the first piece that
/// yields one, scanning left to right.
pub open spec fn spec_extract_cookie(s: Seq<char>, name: Seq<char>) -> Option<Seq<char>>
    decreases s.len(),
{
    match spec_find_char(s, ';', 0) {
        None => spec_cookie_piece(s, name),
        Some(i) => if 0 <= i < s.len() {
            match spec_cookie_piece(s.take(i), name) {
                Some(v) => Some(v),
                None => spec_extract_cookie(s.skip(i + 1), name),
            }
        } else {
            spec_cookie_piece(s, name)
        },
    }
}

/// What one cookie piece yields for `cookie_name`, computed.
fn cookie_piece(piece: &str, cookie_name: &str) -> (r: Option<String>)
    ensures
        match r {
            Some(v) => spec_cookie_piece(piece@, cookie_name@) == Some(v@),
            None => spec_cookie_piece(piece@, cookie_name@) is None,
        },
{
    let t = trim_spaces(piece);
    match find_char(t.as_str(), '=', 0) {
        Some(e) => {
            proof {
                lemma_spec_find_char_props(t@, '=', 0);
                reveal_strlit("%3D");
                reveal_strlit("%2B");
            }
            let lt = t.as_str().unicode_len();
            let n = t.as_str().substring_char(0, e);
            proof {
                assert(n@ =~= t@.take(e as int));
            }
            if str_eq(n, cookie_name) {
                let v = t.as_str().substring_char(e + 1, lt);
                proof {
                    assert(v@ =~= t@.skip(e + 1));
                }
                let d1 = replace_all(v, "%3D", "=");
                let d2 = replace_all(d1.as_str(), "%2B", "+");
                Some(d2)
            } else {
                None
            }
        },
        None => None,
    }
}

/// Reads the value of `cookie_name` out of a cookie header: pieces are
/// separated by `;`, trimmed, split at their first `=`, and the first piece
/// named exactly `cookie_name` yields its percent-decoded value.
pub fn extract_cookie_value(cookie_str: &str, cookie_name: &str) -> (r: Option<String>)
    ensures
        match r {
            Some(v) => spec_extract_cookie(cookie_str@, cookie_name@) == Some(v@),
            None => spec_extract_cookie(cookie_str@, cookie_name@) is None,
        },
    decreases cookie_str@.len(),
{
    let ls = cookie_str.unicode_len();
    match find_char(cookie_str, ';', 0) {
        None => cookie_piece(cookie_str, cookie_name),
        Some(i) => {
            proof {
                lemma_spec_find_char_props(cookie_str@, ';', 0);
            }
            let head = cookie_str.substring_char(0, i);
            proof {
                assert(head@ =~= cookie_str@.take(i as int));
            }
            match cookie_piece(head, cookie_name) {
                Some(v) => Some(v),
                None => {
                    let rest = cookie_str.substring_char(i + 1, ls);
                    proof {
                        assert(rest@ =~= cookie_str@.skip(i + 1));
                    }
                    extract_cookie_value(rest, cookie_name)
                },
            }
        },
    }
}

/// The views of a list of strings.
pub open spec fn strs_view(s: Seq<String>) -> Seq<Seq<char>> {
    s.map_values(|m: String| m@)
}

/// The parts joined with `, ` between them.
pub open spec fn spec_join_comma(parts: Seq<Seq<char>>) -> Seq<char>
    decreases parts.len(),
{
    if parts.len() == 0 {
        Seq::empty()
    } else if parts.len() == 1 {
        parts[0]
    } else {
        spec_join_comma(parts.drop_last()) + ", "@ + parts.last()
    }
}

/// Joins the individual validation failure messages into the one line a
/// response reports, separated by `, `.
pub fn format_validation_errors(messages: &Vec<String>) -> (r: String)
    ensures
        r@ == spec_join_comma(strs_view(messages@)),
{
    let mut r = String::new();
    let mut i: usize = 0;
    while i < messages.len()
        invariant
            0 <= i <= messages@.len(),
            r@ == spec_join_comma(strs_view(messages@).take(i as int)),
        decreases messages@.len() - i,
    {
        proof {
            let vs = strs_view(messages@);
            assert(vs.take(i + 1).drop_last() =~= vs.take(i as int));
            assert(vs.take(i + 1).last() == messages@[i as int]@);
        }
        if i > 0 {
            r.append(", ");
        }
        r.append(messages[i].as_str());
        i = i + 1;
    }
    proof {
        assert(strs_view(messages@).take(messages@.len() as int) =~= strs_view(messages@));
    }
    r
}

/// An ASCII letter or digit.
pub open spec fn is_alnum_char(c: char) -> bool {
    ('a' <= c && c <= 'z') || ('A' <= c && c <= 'Z') || ('0' <= c && c <= '9')
}

/// Relies on rand's `Alphanumeric` distribution: each sample is an ASCII
/// letter or digit, and taking `length` of them yields exactly that many
/// characters.  The characters themselves are random; nothing more is said
/// of them.
#[verifier::external_body]
pub fn generate_csrf_token(length: usize) -> (r: String)
    ensures
        r@.len() == length,
        forall|i: int| 0 <= i < r@.len() ==> is_alnum_char(#[trigger] r@[i]),
{
    rand::thread_rng()
        .sample_iter(&rand::distributions::Alphanumeric)
        .take(length)
        .map(char::from)
        .collect()
}

/// The cookie line that hands a freshly drawn forgery token to the browser.
pub fn build_csrf_cookie(token: &str) -> (r: String)
    ensures
        r@ == "XSRF-TOKEN="@ + token@ + "; Path=/; HttpOnly; SameSite=Lax"@,
{
    let mut r = "XSRF-TOKEN=".to_owned();
    r.append(token);
    r.append("; Path=/; HttpOnly; SameSite=Lax");
    r
}

/// Methods exempt from the forgery check: safe methods that change nothing.
pub open spec fn spec_csrf_exempt(method: Seq<char>) -> bool {
    method == "GET"@ || method == "HEAD"@ || method == "OPTIONS"@
}

/// Whether both tokens are present and agree.
pub open spec fn spec_tokens_match(header: Option<&String>, cookie: Option<&String>) -> bool {
    match (header, cookie) {
        (Some(h), Some(c)) => h@ == c@,
        _ => false,
    }
}

/// The forgery-check verdict on one request: exempt methods and a switched-
/// off check pass; otherwise the header token must be present and equal the
/// cookie token.
pub fn csrf_request_allowed(
    method: &str,
    enable_protection: bool,
    header_token: Option<&String>,
    cookie_token: Option<&String>,
) -> (r: bool)
    ensures
        r == (spec_csrf_exempt(method@) || !enable_protection || spec_tokens_match(
            header_token,
            cookie_token,
        )),
{
    if str_eq(method, "GET") || str_eq(method, "HEAD") || str_eq(method, "OPTIONS") {
        return true;
    }
    if !enable_protection {
        return true;
    }
    match (header_token, cookie_token) {
        (Some(h), Some(c)) => str_eq(h.as_str(), c.as_str()),
        _ => false,
    }
}

} // verus!
