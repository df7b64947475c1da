use global_stats::handlers::{check_admin_code, get_global_statistics, update_global_statistics};
use global_stats::payload::{OnlineUsersOptions, UpdateGlobalStatsPayload};
use global_stats::stats::Statistics;

fn payload(inc: Option<bool>, dec: Option<bool>, downloads: Option<bool>) -> UpdateGlobalStatsPayload {
    UpdateGlobalStatsPayload { online_users: OnlineUsersOptions { inc, dec }, downloads }
}

#[test]
fn test_get_global_statistics_unauthorized() {
    let admin_code = "user";
    let mut db: Option<Statistics> = None;
    let result = get_global_statistics(admin_code, &mut db);

    assert_eq!(result.unwrap_err().status_code.0, 401);
}

#[test]
fn test_get_global_statistics_success() {
    let admin_code = "admin";
    let mut db: Option<Statistics> = None;
    let result = get_global_statistics(admin_code, &mut db);

    assert!(result.is_ok());
}

#[test]
fn test_update_global_statistics_unauthorized() {
    let admin_code = "user";
    let p = payload(Some(true), None, None);
    let mut db: Option<Statistics> = None;
    let result = update_global_statistics(admin_code, &p, &mut db);

    assert_eq!(result.unwrap_err().status_code.0, 401);
}

#[test]
fn test_update_global_statistics_success() {
    let admin_code = "admin";
    let p = payload(Some(true), None, None);
    let mut db: Option<Statistics> = None;
    let result = update_global_statistics(admin_code, &p, &mut db);

    assert_eq!(result.unwrap().0, 200);
}

#[test]
fn any_other_admin_code_is_denied_on_both_endpoints() {
    for code in ["", "Admin", "ADMIN", "administrator", "admin ", "adm"] {
        let mut db: Option<Statistics> = Some(Statistics { online_users: 2, downloads: 3 });
        let got = get_global_statistics(code, &mut db);
        let err = got.unwrap_err();
        assert_eq!(err.status_code.0, 401);
        assert_eq!(err.error_message, "You shall not pass!");
        assert_eq!(db, Some(Statistics { online_users: 2, downloads: 3 }));

        let p = payload(Some(true), Some(true), Some(true));
        let got = update_global_statistics(code, &p, &mut db);
        assert_eq!(got.unwrap_err().status_code.0, 401);
        assert_eq!(db, Some(Statistics { online_users: 2, downloads: 3 }));
    }
}

#[test]
fn check_admin_code_accepts_only_the_fixed_code() {
    assert!(check_admin_code("admin").is_ok());
    let err = check_admin_code("user").unwrap_err();
    assert_eq!(err.status_code.0, 401);
    assert_eq!(err.error_message, "You shall not pass!");
}

#[test]
fn get_on_empty_store_creates_the_zero_document() {
    let mut db: Option<Statistics> = None;
    let got = get_global_statistics("admin", &mut db).unwrap();
    assert_eq!(got, Statistics { online_users: 0, downloads: 0 });
    assert_eq!(db, Some(Statistics { online_users: 0, downloads: 0 }));
}

#[test]
fn get_on_populated_store_has_no_side_effect() {
    let mut db: Option<Statistics> = Some(Statistics { online_users: 7, downloads: 9 });
    let got = get_global_statistics("admin", &mut db).unwrap();
    assert_eq!(got, Statistics { online_users: 7, downloads: 9 });
    assert_eq!(db, Some(Statistics { online_users: 7, downloads: 9 }));
}

#[test]
fn two_gets_with_no_update_return_identical_documents() {
    let mut db: Option<Statistics> = None;
    let first = get_global_statistics("admin", &mut db).unwrap();
    let second = get_global_statistics("admin", &mut db).unwrap();
    assert_eq!(first, second);

    let mut db = Some(Statistics { online_users: 4, downloads: 11 });
    let first = get_global_statistics("admin", &mut db).unwrap();
    let second = get_global_statistics("admin", &mut db).unwrap();
    assert_eq!(first, second);
}

#[test]
fn post_inc_raises_online_users_by_one() {
    let mut db = Some(Statistics { online_users: 7, downloads: 9 });
    let r = update_global_statistics("admin", &payload(Some(true), None, None), &mut db);
    assert_eq!(r.unwrap().0, 200);
    assert_eq!(db, Some(Statistics { online_users: 8, downloads: 9 }));
}

#[test]
fn post_dec_lowers_online_users_by_one() {
    let mut db = Some(Statistics { online_users: 7, downloads: 9 });
    let r = update_global_statistics("admin", &payload(None, Some(true), None), &mut db);
    assert_eq!(r.unwrap().0, 200);
    assert_eq!(db, Some(Statistics { online_users: 6, downloads: 9 }));
}

#[test]
fn post_dec_at_zero_leaves_zero() {
    let mut db = Some(Statistics { online_users: 0, downloads: 9 });
    let r = update_global_statistics("admin", &payload(None, Some(true), None), &mut db);
    assert_eq!(r.unwrap().0, 200);
    assert_eq!(db, Some(Statistics { online_users: 0, downloads: 9 }));
}

#[test]
fn post_downloads_raises_downloads_by_one() {
    let mut db = Some(Statistics { online_users: 7, downloads: 9 });
    let r = update_global_statistics("admin", &payload(None, None, Some(true)), &mut db);
    assert_eq!(r.unwrap().0, 200);
    assert_eq!(db, Some(Statistics { online_users: 7, downloads: 10 }));
}

#[test]
fn post_inc_and_dec_is_rejected_without_a_write() {
    let mut db = Some(Statistics { online_users: 7, downloads: 9 });
    let r = update_global_statistics("admin", &payload(Some(true), Some(true), None), &mut db);
    let err = r.unwrap_err();
    assert_eq!(err.status_code.0, 400);
    assert_eq!(err.error_message, "inc & dec TRUE in same request");
    assert_eq!(db, Some(Statistics { online_users: 7, downloads: 9 }));
}

#[test]
fn post_empty_payload_is_rejected_without_a_write() {
    let mut db: Option<Statistics> = None;
    let r = update_global_statistics("admin", &payload(None, None, None), &mut db);
    let err = r.unwrap_err();
    assert_eq!(err.status_code.0, 400);
    assert_eq!(err.error_message, "None or invalid request data");
    assert_eq!(db, None);

    let mut db = Some(Statistics { online_users: 7, downloads: 9 });
    let r = update_global_statistics(
        "admin",
        &payload(Some(false), Some(false), Some(false)),
        &mut db,
    );
    assert_eq!(r.unwrap_err().status_code.0, 400);
    assert_eq!(db, Some(Statistics { online_users: 7, downloads: 9 }));
}

#[test]
fn fresh_deployment_scenario() {
    let mut db: Option<Statistics> = None;

    let first = get_global_statistics("admin", &mut db).unwrap();
    assert_eq!(first, Statistics { online_users: 0, downloads: 0 });

    let posted = update_global_statistics("admin", &payload(Some(true), None, None), &mut db);
    assert_eq!(posted.unwrap().0, 200);

    let second = get_global_statistics("admin", &mut db).unwrap();
    assert_eq!(second, Statistics { online_users: 1, downloads: 0 });
}
