//! Calendar text for the header's export time.

use vstd::prelude::*;

verus! {

/// The UTC calendar text (`YYYY-MM-DD hh:mm:ss UTC`) of an epoch-seconds
/// value. The text is a fixed function of the value alone.
pub uninterp spec fn utc_text_of(secs: u32) -> Seq<char>;

/// Relies on chrono's `DateTime::<Utc>::from_timestamp` and its `format`
/// rendering: the UTC calendar text of an epoch-seconds value, which depends
/// on that value alone.
#[verifier::external_body]
pub(crate) fn utc_text(secs: u32) -> (r: String)
    ensures
        r@ == utc_text_of(secs),
{
    let dt = chrono::DateTime::<chrono::Utc>::from_timestamp(secs as i64, 0).unwrap_or_default();
    dt.format("%Y-%m-%d %H:%M:%S UTC").to_string()
}

} // verus!
