//! The update endpoint's payload, its validation policy, and the delta it
//! asks the store to apply.

use vstd::prelude::*;

use crate::error::{validation_error, IError, BAD_REQUEST};
use crate::stats::{spec_apply_delta, Statistics, StatsDelta};

verus! {

/// The online-user intents of an update request.
#[derive(Debug, Clone)]
pub struct OnlineUsersOptions {
    pub inc: Option<bool>,
    pub dec: Option<bool>,
}

/// The payload of an update request: three optional intents.
#[derive(Debug, Clone)]
pub struct UpdateGlobalStatsPayload {
    pub online_users: OnlineUsersOptions,
    pub downloads: Option<bool>,
}

/// The request asks to raise the online-user counter.
pub open spec fn wants_inc(p: UpdateGlobalStatsPayload) -> bool {
    p.online_users.inc == Some(true)
}

/// The request asks to lower the online-user counter.
pub open spec fn wants_dec(p: UpdateGlobalStatsPayload) -> bool {
    p.online_users.dec == Some(true)
}

/// The request asks to raise the download counter.
pub open spec fn wants_download(p: UpdateGlobalStatsPayload) -> bool {
    p.downloads == Some(true)
}

/// A payload is valid when it carries at least one true flag and does not
/// ask to both raise and lower the online-user counter in one request.
pub open spec fn payload_valid(p: UpdateGlobalStatsPayload) -> bool {
    (wants_inc(p) || wants_dec(p) || wants_download(p)) && !(wants_inc(p) && wants_dec(p))
}

/// The message a rejected payload is answered with.
pub open spec fn spec_validation_message(p: UpdateGlobalStatsPayload) -> Seq<char> {
    if wants_inc(p) && wants_dec(p) {
        "inc & dec TRUE in same request"@
    } else {
        "None or invalid request data"@
    }
}

/// The delta a valid payload asks for against `current`: the online-user
/// counter moves up by one on `inc`, down by one on `dec` — unless it
/// already stands at zero, in which case the decrement is converted to a
/// zero delta — and the download counter moves up by one on `downloads`.
pub open spec fn spec_delta(p: UpdateGlobalStatsPayload, current: Statistics) -> StatsDelta {
    StatsDelta {
        online_users: if wants_inc(p) {
            1i32
        } else if wants_dec(p) && current.online_users > 0 {
            -1i32
        } else {
            0i32
        },
        downloads: if wants_download(p) {
            1
        } else {
            0
        },
    }
}

/// The document a valid payload turns `current` into.
pub open spec fn spec_updated(current: Statistics, p: UpdateGlobalStatsPayload) -> Statistics {
    spec_apply_delta(current, spec_delta(p, current))
}

/// Checks the validation policy alone: exactly the valid payloads pass,
/// and a rejected payload is answered before any write.
pub fn validate_payload(p: &UpdateGlobalStatsPayload) -> (r: Result<(), IError>)
    ensures
        r is Ok <==> payload_valid(*p),
        r matches Err(e) ==> e.status_code.0 == BAD_REQUEST && e.error_message@
            == spec_validation_message(*p),
{
    let inc = matches!(p.online_users.inc, Some(true));
    let dec = matches!(p.online_users.dec, Some(true));
    let downloads = matches!(p.downloads, Some(true));
    if inc && dec {
        return Err(validation_error("inc & dec TRUE in same request"));
    }
    if !inc && !dec && !downloads {
        return Err(validation_error("None or invalid request data"));
    }
    Ok(())
}

/// Validates a payload against the policy and computes the delta the store
/// is to apply: exactly the valid payloads pass.
pub fn plan_update(p: &UpdateGlobalStatsPayload, current: &Statistics) -> (r: Result<
    StatsDelta,
    IError,
>)
    ensures
        r is Ok <==> payload_valid(*p),
        r matches Ok(d) ==> d == spec_delta(*p, *current),
        r matches Err(e) ==> e.status_code.0 == BAD_REQUEST && e.error_message@
            == spec_validation_message(*p),
{
    match validate_payload(p) {
        Err(e) => {
            return Err(e);
        },
        Ok(_) => {},
    }
    let inc = matches!(p.online_users.inc, Some(true));
    let dec = matches!(p.online_users.dec, Some(true));
    let downloads = matches!(p.downloads, Some(true));
    let online_delta: i32 = if inc {
        1
    } else if dec && current.online_users > 0 {
        -1
    } else {
        0
    };
    let download_delta: u32 = if downloads {
        1
    } else {
        0
    };
    Ok(StatsDelta { online_users: online_delta, downloads: download_delta })
}

} // verus!
