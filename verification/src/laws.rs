//! What the service guarantees, stated and proved over the models that the
//! handlers' contracts use.

use vstd::prelude::*;

use crate::handlers::{spec_db_after_get, spec_get_response};
use crate::payload::{payload_valid, spec_updated, wants_dec, wants_download, wants_inc};
use crate::payload::UpdateGlobalStatsPayload;
use crate::stats::{zero_stats, Statistics};

verus! {

/// A first read against an empty store creates exactly one statistics
/// document, with both counters at zero, and returns that document.
pub proof fn lemma_get_creates_zero_document()
    ensures
        spec_get_response(None) == zero_stats(),
        spec_db_after_get(None) == Some(zero_stats()),
{
}

/// A read has no side effect on the counters: against a populated store,
/// GET returns the stored document and leaves the store's content as it
/// was.
pub proof fn lemma_get_no_side_effect(doc: Statistics)
    ensures
        spec_get_response(Some(doc)) == doc,
        spec_db_after_get(Some(doc)) == Some(doc),
{
}

/// Reading is idempotent: two sequential GETs with no update in between
/// return the same document and leave the store in the same state.
pub proof fn lemma_get_idempotent(db: Option<Statistics>)
    ensures
        spec_get_response(spec_db_after_get(db)) == spec_get_response(db),
        spec_db_after_get(spec_db_after_get(db)) == spec_db_after_get(db),
{
}

/// An update that only asks to raise the online-user counter is accepted,
/// raises that counter by exactly one and leaves the download counter
/// unchanged. (At `u32::MAX` the counter saturates instead.)
pub proof fn lemma_update_inc_online_users(s: Statistics, p: UpdateGlobalStatsPayload)
    requires
        wants_inc(p),
        !wants_dec(p),
        !wants_download(p),
        s.online_users < u32::MAX,
    ensures
        payload_valid(p),
        spec_updated(s, p).online_users == s.online_users + 1,
        spec_updated(s, p).downloads == s.downloads,
{
}

/// Lowering the online-user counter when it already stands at zero leaves
/// it at zero: no negative counter is ever produced.
pub proof fn lemma_update_dec_at_zero(s: Statistics, p: UpdateGlobalStatsPayload)
    requires
        wants_dec(p),
        !wants_inc(p),
        s.online_users == 0,
    ensures
        spec_updated(s, p).online_users == 0,
{
}

/// An update that asks to raise the download counter raises it by exactly
/// one. (At `u32::MAX` the counter saturates instead.)
pub proof fn lemma_update_inc_downloads(s: Statistics, p: UpdateGlobalStatsPayload)
    requires
        wants_download(p),
        !(wants_inc(p) && wants_dec(p)),
        s.downloads < u32::MAX,
    ensures
        payload_valid(p),
        spec_updated(s, p).downloads == s.downloads + 1,
{
}

/// A request that asks to both raise and lower the online-user counter is
/// invalid, whatever else it carries: the handler rejects it before any
/// write.
pub proof fn lemma_inc_and_dec_invalid(p: UpdateGlobalStatsPayload)
    requires
        wants_inc(p),
        wants_dec(p),
    ensures
        !payload_valid(p),
{
}

/// A request that carries no true flag is invalid: the handler rejects it
/// before any write.
pub proof fn lemma_empty_payload_invalid(p: UpdateGlobalStatsPayload)
    requires
        !wants_inc(p),
        !wants_dec(p),
        !wants_download(p),
    ensures
        !payload_valid(p),
{
}

} // verus!
