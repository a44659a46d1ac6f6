//! The build timestamp that volume identifiers and default file names
//! carry.

use vstd::prelude::*;

verus! {

/// Relies on chrono's `Utc::now` and `DateTime::format`: the current UTC
/// time rendered with the fixed pattern `%Y%m%d%H%M` (year, month, day,
/// hour and minute, zero-padded). The result depends on the clock, so
/// nothing is promised of it.
#[verifier::external_body]
pub(crate) fn now_stamp() -> String {
    chrono::Utc::now().format("%Y%m%d%H%M").to_string()
}

} // verus!
