use vstd::prelude::*;

use chrono::Datelike;

verus! {

/// Relies on chrono::Local::now together with chrono::Datelike::month and
/// chrono::Datelike::year: the month number ranges from 1 to 12; nothing more
/// can be promised of a clock reading.
#[verifier::external_body]
pub(crate) fn local_month_and_year() -> (r: (u32, i32))
    ensures
        1 <= r.0 <= 12,
{
    let now = chrono::Local::now();
    (now.month(), now.year())
}

} // verus!
