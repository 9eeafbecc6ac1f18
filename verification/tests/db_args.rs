//! Database argument rendering.

use kadmin::db_args::KAdminDbArgs;
use kadmin::Error;

#[test]
fn build_empty() {
    let db_args = KAdminDbArgs::builder().build().unwrap();
    assert_eq!(db_args.args().len(), 0);
}

#[test]
fn build_no_value() {
    let db_args = KAdminDbArgs::builder().arg("lockiter", None).build().unwrap();
    assert_eq!(db_args.args()[0], "lockiter");
}

#[test]
fn build_with_value() {
    let db_args = KAdminDbArgs::builder().arg("host", Some("ldap.test")).build().unwrap();
    assert_eq!(db_args.args()[0], "host=ldap.test");
}

#[test]
fn build_keeps_order() {
    let db_args = KAdminDbArgs::builder()
        .arg("host", Some("ldap.test"))
        .arg("lockiter", None)
        .arg("port", Some("389"))
        .build()
        .unwrap();
    assert_eq!(db_args.args().len(), 3);
    assert_eq!(db_args.args()[0], "host=ldap.test");
    assert_eq!(db_args.args()[1], "lockiter");
    assert_eq!(db_args.args()[2], "port=389");
}

#[test]
fn build_rejects_interior_nul() {
    let err = KAdminDbArgs::builder()
        .arg("host", Some("ldap\0test"))
        .build()
        .unwrap_err();
    assert!(matches!(err, Error::StringConversion));
    let err = KAdminDbArgs::builder().arg("lock\0iter", None).build().unwrap_err();
    assert!(matches!(err, Error::StringConversion));
}

#[test]
fn default_is_empty() {
    let db_args = KAdminDbArgs::default();
    assert!(db_args.args().is_empty());
}
