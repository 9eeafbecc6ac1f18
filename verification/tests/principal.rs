//! Conversion of a copied-out native principal entry into portable form.

use std::time::Duration;

use kadmin::principal::Principal;
use kadmin::principal::RawPrincipalEntry;
use kadmin::tl_data::TlData;
use kadmin::tl_data::TlDataEntry;

fn sample_entry() -> RawPrincipalEntry {
    RawPrincipalEntry {
        name: "user@EXAMPLE.ORG".to_string(),
        princ_expire_time: 0,
        last_pwd_change: 1700000000,
        pw_expiration: 1700086400,
        max_life: 86400,
        modified_by: Some("admin/admin@EXAMPLE.ORG".to_string()),
        mod_date: 1690000000,
        attributes: 0x80,
        kvno: 3,
        mkvno: 1,
        policy: Some("default".to_string()),
        aux_attributes: 0,
        max_renewable_life: 0,
        last_success: 0,
        last_failed: -1,
        fail_auth_count: 2,
        tl_data: TlData { entries: vec![TlDataEntry { data_type: 7, contents: vec![1, 2] }] },
    }
}

#[test]
fn from_raw_converts_every_field() {
    let principal = Principal::from_raw(sample_entry());
    assert_eq!(principal.name(), "user@EXAMPLE.ORG");
    assert!(principal.expire_time().is_none());
    assert_eq!(principal.last_password_change(), Some(1700000000));
    assert_eq!(principal.password_expiration(), Some(1700086400));
    assert_eq!(principal.max_life(), Some(Duration::from_secs(86400)));
    assert_eq!(principal.modified_by(), Some("admin/admin@EXAMPLE.ORG"));
    assert_eq!(principal.modified_at(), Some(1690000000));
    assert_eq!(principal.attributes(), 0x80);
    assert_eq!(principal.kvno(), 3);
    assert_eq!(principal.mkvno(), 1);
    assert_eq!(principal.policy(), Some("default"));
    assert_eq!(principal.aux_attributes(), 0);
    assert!(principal.max_renewable_life().is_none());
    assert!(principal.last_success().is_none());
    // a timestamp past 2038 reads back through the unsigned width
    assert_eq!(principal.last_failed(), Some(4294967295));
    assert_eq!(principal.fail_auth_count(), 2);
    assert_eq!(principal.tl_data().entries.len(), 1);
    assert_eq!(principal.tl_data().entries[0].data_type, 7);
    assert_eq!(principal.tl_data().entries[0].contents, vec![1, 2]);
}

#[test]
fn from_raw_absent_options() {
    let mut entry = sample_entry();
    entry.modified_by = None;
    entry.policy = None;
    let principal = Principal::from_raw(entry);
    assert!(principal.modified_by().is_none());
    assert!(principal.policy().is_none());
}
