//! Health reporting: the record the health endpoint answers with.  Probing
//! the database and reading the clock happen outside; this module assembles
//! the answer from their results.

use crate::text::{digit_char, spec_udec};
use vstd::prelude::*;

verus! {

/// The most significant decimal digit of `n`.
pub open spec fn leading_digit(n: nat) -> nat
    decreases n,
{
    if n < 10 {
        n
    } else {
        leading_digit(n / 10)
    }
}

/// The decimal rendering starts with the most significant digit.
proof fn lemma_udec_first(n: nat)
    ensures
        spec_udec(n).len() > 0,
        spec_udec(n)[0] == digit_char(leading_digit(n)),
    decreases n,
{
    if n >= 10 {
        lemma_udec_first(n / 10);
    }
}

/// Whether a response counts as a success for the request counters: its
/// status, written in decimal, starts with a `2`.
pub fn status_is_success(status: u16) -> (r: bool)
    ensures
        r == (spec_udec(status as nat)[0] == '2'),
{
    proof {
        lemma_udec_first(status as nat);
    }
    let mut lead: u16 = status;
    while lead >= 10
        invariant
            leading_digit(lead as nat) == leading_digit(status as nat),
        decreases lead,
    {
        lead = lead / 10;
    }
    lead == 2
}

/// What the health endpoint reports.
#[derive(Debug)]
pub struct HealthCheckResponse {
    pub status: String,
    pub version: String,
    pub uptime: u64,
    pub database: String,
}

/// Assembles the health report: overall status is always `ok` — the endpoint
/// answering at all is the signal — while the database field says whether the
/// probe succeeded.
pub fn health_check_response(version: String, uptime: u64, database_ok: bool) -> (r:
    HealthCheckResponse)
    ensures
        r.status@ == "ok"@,
        r.version@ == version@,
        r.uptime == uptime,
        database_ok ==> r.database@ == "ok"@,
        !database_ok ==> r.database@ == "error"@,
{
    HealthCheckResponse {
        status: "ok".to_owned(),
        version,
        uptime,
        database: if database_ok {
            "ok".to_owned()
        } else {
            "error".to_owned()
        },
    }
}

} // verus!
