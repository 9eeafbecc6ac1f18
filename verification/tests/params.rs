//! Config-parameter masks and the built guard.

use kadmin::params::Params;
use kadmin::params::ParamsGuard;
use kadmin::Error;
use kadmin::KAdm5Variant;

#[test]
fn build_empty_mit() {
    let params = Params::new();
    assert_eq!(params.mask_mit(), 0);
}

#[test]
fn build_empty_heimdal() {
    let params = Params::new();
    assert_eq!(params.mask_heimdal(), 0);
}

#[test]
fn build_realm_mit() {
    let params = Params::new().realm("EXAMPLE.ORG");
    assert_eq!(params.mask_mit(), 1);
}

#[test]
fn build_realm_heimdal() {
    let params = Params::new().realm("EXAMPLE.ORG");
    assert_eq!(params.mask_heimdal(), 1);
}

#[test]
fn build_all_mit() {
    let params = Params::new()
        .realm("EXAMPLE.ORG")
        .admin_server("kdc.example.org")
        .kadmind_port(750)
        .kpasswd_port(465);
    assert_eq!(params.mask_mit(), 0x94001);
}

#[test]
fn build_all_heimdal() {
    let params = Params::new()
        .realm("EXAMPLE.ORG")
        .admin_server("kdc.example.org")
        .kadmind_port(750);
    assert_eq!(params.mask_heimdal(), 0xd);
}

#[test]
fn guard_realm_round_trip_mit() {
    let params = Params::new().realm("EXAMPLE.ORG");
    let guard = ParamsGuard::build_mit(&params).unwrap();
    assert_eq!(guard.realm().unwrap(), "EXAMPLE.ORG");
    assert_ne!(guard.mask() & 1, 0);
    assert!(guard.is_mit());
}

#[test]
fn guard_realm_round_trip_heimdal() {
    let params = Params::new().realm("EXAMPLE.ORG");
    let guard = ParamsGuard::build_heimdal(&params).unwrap();
    assert_eq!(guard.realm().unwrap(), "EXAMPLE.ORG");
    assert_ne!(guard.mask() & 1, 0);
    assert!(!guard.is_mit());
}

#[test]
fn guard_empty_mask_zero() {
    let params = Params::new();
    let mit = ParamsGuard::build_mit(&params).unwrap();
    assert_eq!(mit.mask(), 0);
    assert!(mit.realm().is_none());
    let heimdal = ParamsGuard::build_heimdal(&params).unwrap();
    assert_eq!(heimdal.mask(), 0);
}

#[test]
fn guard_all_fields_survive() {
    let params = Params::new()
        .realm("EXAMPLE.ORG")
        .admin_server("kdc.example.org")
        .dbname("/tmp/db")
        .acl_file("/tmp/acl")
        .dict_file("/tmp/dict")
        .stash_file("/tmp/stash")
        .kadmind_port(750)
        .kpasswd_port(465);
    let guard = ParamsGuard::build_mit(&params).unwrap();
    assert_eq!(guard.admin_server().unwrap(), "kdc.example.org");
    assert_eq!(guard.dbname().unwrap(), "/tmp/db");
    assert_eq!(guard.acl_file().unwrap(), "/tmp/acl");
    assert_eq!(guard.dict_file().unwrap(), "/tmp/dict");
    assert_eq!(guard.stash_file().unwrap(), "/tmp/stash");
    assert_eq!(guard.kadmind_port(), 750);
    assert_eq!(guard.kpasswd_port(), 465);
}

#[test]
fn guard_heimdal_has_no_dict_file() {
    let params = Params::new().dict_file("/tmp/dict");
    let guard = ParamsGuard::build_heimdal(&params).unwrap();
    assert!(guard.dict_file().is_none());
}

#[test]
fn guard_rejects_interior_nul() {
    let params = Params::new().realm("EXAMPLE\0ORG");
    let err = ParamsGuard::build_mit(&params).unwrap_err();
    assert!(matches!(err, Error::StringConversion));
    let params = Params::new().realm("EXAMPLE\0ORG");
    let err = ParamsGuard::build_heimdal(&params).unwrap_err();
    assert!(matches!(err, Error::StringConversion));
}

#[test]
fn guard_build_follows_variant_family() {
    let params = Params::new().realm("EXAMPLE.ORG");
    let guard = ParamsGuard::build(KAdm5Variant::MitServer, &params).unwrap();
    assert!(guard.is_mit());
    let guard = ParamsGuard::build(KAdm5Variant::HeimdalServer, &params).unwrap();
    assert!(!guard.is_mit());
}
