//! Classification of a requested instant relative to "now".
//!
//! Instants are Unix epochs in seconds (UTC). The classification is derived
//! per request and never stored.

use vstd::prelude::*;

verus! {

/// How a requested instant relates to the evaluation-time "now".
#[derive(Debug, Clone, Copy, PartialEq, Eq, Structural)]
pub enum DateRequest {
    Current,
    Future(i64),
    Past(i64),
}

/// Partition a requested instant against `now`.
///
/// No instant means "now". An instant strictly before `now` is `Past`;
/// anything else — including `now` itself — is `Future`. The inclusive
/// boundary at `when == now` is deliberate.
pub fn classify_date(now: i64, when_epoch: Option<i64>) -> (r: DateRequest)
    ensures
        when_epoch matches Option::None ==> r == DateRequest::Current,
        when_epoch matches Some(t) ==> r == (if t < now {
            DateRequest::Past(t)
        } else {
            DateRequest::Future(t)
        }),
{
    match when_epoch {
        None => DateRequest::Current,
        Some(t) => {
            if t < now {
                DateRequest::Past(t)
            } else {
                DateRequest::Future(t)
            }
        },
    }
}

/// Hour of day (0–23) of a Unix epoch, in UTC.
pub open spec fn spec_hour_of_day(epoch: int) -> int {
    (epoch % 86400) / 3600
}

/// Extract the UTC hour of day from a Unix epoch in seconds.
///
/// Works for instants before 1970 as well: the day boundary is taken by
/// flooring, so the result is always in 0–23.
pub fn hour_of_day(epoch: i64) -> (h: u8)
    ensures
        h as int == spec_hour_of_day(epoch as int),
        h < 24,
{
    if epoch >= 0 {
        let secs: u64 = (epoch as u64) % 86400;
        (secs / 3600) as u8
    } else {
        // For epoch < 0, the Euclidean remainder is 86399 minus the
        // remainder of the mirrored nonnegative instant -(epoch + 1).
        let mirrored: u64 = (-(epoch + 1)) as u64;
        let secs: u64 = 86399 - mirrored % 86400;
        proof {
            let e = epoch as int;
            let m = mirrored as int;
            assert(m == -e - 1);
            assert(m % 86400 == (-e - 1) % 86400);
            assert(e % 86400 == 86399int - ((-e - 1) % 86400)) by {
                let q = (-e - 1) / 86400;
                assert((-e - 1) == 86400 * q + ((-e - 1) % 86400));
                assert(e == -86400 * q - 1 - ((-e - 1) % 86400));
                assert(e == 86400 * (-q - 1) + (86399 - ((-e - 1) % 86400)));
                assert(0 <= 86399 - ((-e - 1) % 86400) < 86400);
                vstd::arithmetic::div_mod::lemma_fundamental_div_mod_converse(
                    e, 86400, -q - 1, 86399 - ((-e - 1) % 86400));
            }
        }
        (secs / 3600) as u8
    }
}

} // verus!
