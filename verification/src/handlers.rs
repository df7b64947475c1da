//! The two endpoints' handlers, run against an in-memory store.
//!
//! `db` models the content of the statistics collection: `None` while the
//! singleton document has not been created yet, `Some(doc)` afterwards. A
//! live deployment drives the same decision functions — the admin gate,
//! get-or-create, `plan_update` — against the real database and hands the
//! outcomes of its operations to the step functions in `store`.

use vstd::prelude::*;

use crate::error::{IError, BAD_REQUEST, OK, UNAUTHORIZED};
use crate::error::{access_denied, StatusCodeWrapper};
use crate::payload::{payload_valid, plan_update, spec_updated, spec_validation_message};
use crate::payload::UpdateGlobalStatsPayload;
use crate::stats::{apply_delta, get_or_create, stored_or_default, Statistics};

verus! {

/// Relies on `str`'s `PartialEq`: two string slices compare equal exactly
/// when their character sequences are equal.
#[verifier::external_body]
fn str_eq(a: &str, b: &str) -> (r: bool)
    ensures
        r == (a@ == b@),
{
    a == b
}

/// The code that passes the admin gate.
pub open spec fn spec_is_admin(code: Seq<char>) -> bool {
    code == "admin"@
}

/// The admin gate: exactly the fixed code `"admin"` passes; any other code
/// is answered with an access-denied error and no further work is done.
pub fn check_admin_code(admin_code: &str) -> (r: Result<(), IError>)
    ensures
        r is Ok <==> spec_is_admin(admin_code@),
        r matches Err(e) ==> e.status_code.0 == UNAUTHORIZED && e.error_message@
            == "You shall not pass!"@,
{
    if str_eq(admin_code, "admin") {
        Ok(())
    } else {
        Err(access_denied())
    }
}

/// The document a GET returns against a store holding `db`.
pub open spec fn spec_get_response(db: Option<Statistics>) -> Statistics {
    stored_or_default(db)
}

/// The store's content after a GET against a store holding `db`: reading
/// creates the zero document when none exists and changes nothing else.
pub open spec fn spec_db_after_get(db: Option<Statistics>) -> Option<Statistics> {
    Some(stored_or_default(db))
}

/// One GET request: gate, then get-or-create on the singleton document.
pub fn get_global_statistics(admin_code: &str, db: &mut Option<Statistics>) -> (r: Result<
    Statistics,
    IError,
>)
    ensures
        !spec_is_admin(admin_code@) ==> ((r matches Err(e) && e.status_code.0 == UNAUTHORIZED
            && e.error_message@ == "You shall not pass!"@) && *final(db) == *old(db)),
        spec_is_admin(admin_code@) ==> (r matches Ok(doc) && doc == spec_get_response(*old(db))
            && *final(db) == spec_db_after_get(*old(db))),
{
    match check_admin_code(admin_code) {
        Err(e) => Err(e),
        Ok(_) => {
            let found: Option<Statistics> = *db;
            let doc = get_or_create(found);
            if found.is_none() {
                *db = Some(doc);
            }
            Ok(doc)
        },
    }
}

/// One POST request: gate, get-or-create, validation, then the atomic
/// update of both counters. A rejected payload performs no write.
pub fn update_global_statistics(
    admin_code: &str,
    payload: &UpdateGlobalStatsPayload,
    db: &mut Option<Statistics>,
) -> (r: Result<StatusCodeWrapper, IError>)
    ensures
        !spec_is_admin(admin_code@) ==> ((r matches Err(e) && e.status_code.0 == UNAUTHORIZED
            && e.error_message@ == "You shall not pass!"@) && *final(db) == *old(db)),
        spec_is_admin(admin_code@) && !payload_valid(*payload) ==> ((r matches Err(e)
            && e.status_code.0 == BAD_REQUEST && e.error_message@
            == spec_validation_message(*payload)) && *final(db) == *old(db)),
        spec_is_admin(admin_code@) && payload_valid(*payload) ==> ((r matches Ok(code) && code.0
            == OK) && *final(db) == Some(spec_updated(stored_or_default(*old(db)), *payload))),
{
    match check_admin_code(admin_code) {
        Err(e) => Err(e),
        Ok(_) => {
            let found: Option<Statistics> = *db;
            let current = get_or_create(found);
            match plan_update(payload, &current) {
                Err(e) => Err(e),
                Ok(delta) => {
                    let updated = apply_delta(&current, &delta);
                    *db = Some(updated);
                    Ok(StatusCodeWrapper(OK))
                },
            }
        },
    }
}

} // verus!
