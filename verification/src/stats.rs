//! The statistics document and the value-level operations of the
//! statistics store.

use vstd::prelude::*;

verus! {

/// Global statistics for the app.
///
/// There is only ever one such document in its collection; both counters
/// are non-negative and start at zero.
#[derive(Debug, Clone, Copy, PartialEq, Eq, Structural)]
pub struct Statistics {
    pub online_users: u32,
    pub downloads: u32,
}

/// The change an update request asks the store to apply atomically: a
/// delta for each counter. The online-user delta is `-1`, `0` or `1`; the
/// download delta is `0` or `1`.
#[derive(Debug, Clone, Copy, PartialEq, Eq, Structural)]
pub struct StatsDelta {
    pub online_users: i32,
    pub downloads: u32,
}

/// The document a fresh deployment starts from: both counters at zero.
pub open spec fn zero_stats() -> Statistics {
    Statistics { online_users: 0, downloads: 0 }
}

/// What a reader obtains from a store that currently holds `found`: the
/// stored document if one exists, else the zero document.
pub open spec fn stored_or_default(found: Option<Statistics>) -> Statistics {
    match found {
        Some(doc) => doc,
        None => zero_stats(),
    }
}

/// Get-or-create, on the value level: returns the stored document, or the
/// zero document when the store is empty (the store then inserts it).
pub fn get_or_create(found: Option<Statistics>) -> (r: Statistics)
    ensures
        r == stored_or_default(found),
{
    match found {
        Some(doc) => doc,
        None => Statistics { online_users: 0, downloads: 0 },
    }
}

/// `v` brought back into the range of a counter: negative values become
/// zero and values beyond `u32::MAX` saturate there.
pub open spec fn clamp_counter(v: int) -> u32 {
    if v < 0 {
        0
    } else if v > u32::MAX {
        u32::MAX
    } else {
        v as u32
    }
}

/// The document after the store applies `d` to `current`. Each counter
/// moves by its delta; the counters stay within `u32`, saturating at the
/// ends of the range.
pub open spec fn spec_apply_delta(current: Statistics, d: StatsDelta) -> Statistics {
    Statistics {
        online_users: clamp_counter(current.online_users + d.online_users),
        downloads: clamp_counter(current.downloads + d.downloads),
    }
}

/// Applies a delta to the current document, on the value level: the model
/// of the store's atomic increment of both fields.
pub fn apply_delta(current: &Statistics, d: &StatsDelta) -> (r: Statistics)
    ensures
        r == spec_apply_delta(*current, *d),
{
    let online_sum: i64 = current.online_users as i64 + d.online_users as i64;
    let online_users: u32 = if online_sum < 0 {
        0
    } else if online_sum > u32::MAX as i64 {
        u32::MAX
    } else {
        online_sum as u32
    };
    let downloads_sum: i64 = current.downloads as i64 + d.downloads as i64;
    let downloads: u32 = if downloads_sum > u32::MAX as i64 {
        u32::MAX
    } else {
        downloads_sum as u32
    };
    Statistics { online_users, downloads }
}

} // verus!
