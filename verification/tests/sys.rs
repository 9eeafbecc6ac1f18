//! The variant registry, the loader's search plan and the dispatch facade.

use kadmin::sys::heimdal;
use kadmin::sys::mit;
use kadmin::sys::required_ops;
use kadmin::sys::str_contains;
use kadmin::sys::symbol_name;
use kadmin::sys::KAdminOp;
use kadmin::sys::Library;
use kadmin::Error;
use kadmin::KAdm5Variant;

#[test]
fn variant_axes() {
    assert!(KAdm5Variant::MitClient.is_mit());
    assert!(KAdm5Variant::MitServer.is_mit());
    assert!(KAdm5Variant::HeimdalClient.is_heimdal());
    assert!(KAdm5Variant::HeimdalServer.is_heimdal());
    assert!(KAdm5Variant::MitClient.is_client());
    assert!(KAdm5Variant::HeimdalClient.is_client());
    assert!(KAdm5Variant::MitServer.is_server());
    assert!(KAdm5Variant::HeimdalServer.is_server());
}

#[test]
fn library_paths_and_names() {
    assert_eq!(mit::library_paths()[0], "/usr/local/lib");
    assert_eq!(mit::libraries(), vec!["kadm5clnt_mit", "kadm5srv_mit"]);
    assert_eq!(heimdal::libraries(), vec!["kadm5clnt", "kadm5srv"]);
    assert_eq!(heimdal::library_paths().len(), 4);
}

#[test]
fn substring_search() {
    assert!(str_contains("kadm5clnt_mit", "clnt"));
    assert!(!str_contains("kadm5srv_mit", "clnt"));
    assert!(str_contains("kadm5srv", "srv"));
    assert!(str_contains("anything", ""));
    assert!(!str_contains("ab", "abc"));
}

#[test]
fn load_candidates_mit_client() {
    let candidates = Library::load_candidates(KAdm5Variant::MitClient);
    assert_eq!(candidates[0], "/usr/local/lib/libkadm5clnt_mit.so");
    // one matching library name per search directory, plus the fallback
    assert_eq!(candidates.len(), 5);
    assert_eq!(candidates[candidates.len() - 1], "libkadm5clnt_mit.so");
    for c in candidates.iter() {
        assert!(str_contains(c, "clnt"));
    }
}

#[test]
fn load_candidates_heimdal_server() {
    let candidates = Library::load_candidates(KAdm5Variant::HeimdalServer);
    assert_eq!(candidates[0], "/usr/local/lib/libkadm5srv.so");
    assert_eq!(candidates[candidates.len() - 1], "libkadm5srv.so");
    for c in candidates.iter() {
        assert!(!str_contains(c, "clnt"));
    }
}

#[test]
fn library_bind_records_variant() {
    let lib = Library::bind(KAdm5Variant::HeimdalClient, 17);
    assert_eq!(lib.variant(), KAdm5Variant::HeimdalClient);
    assert_eq!(lib.image(), 17);
    assert!(lib.is_heimdal());
    assert!(!lib.is_mit());
}

#[test]
fn symbols_differ_by_family() {
    assert_eq!(
        symbol_name(KAdm5Variant::MitClient, KAdminOp::InitWithPassword).unwrap(),
        "kadm5_init_with_password"
    );
    assert_eq!(
        symbol_name(KAdm5Variant::HeimdalClient, KAdminOp::InitWithPassword).unwrap(),
        "kadm5_init_with_password_ctx"
    );
    assert_eq!(
        symbol_name(KAdm5Variant::MitServer, KAdminOp::ContextInit).unwrap(),
        "kadm5_init_krb5_context"
    );
    assert_eq!(
        symbol_name(KAdm5Variant::HeimdalServer, KAdminOp::ContextInit).unwrap(),
        "krb5_init_context"
    );
    assert_eq!(
        symbol_name(KAdm5Variant::HeimdalServer, KAdminOp::ParseName).unwrap(),
        "krb5_parse_name"
    );
}

#[test]
fn family_extensions_are_gated() {
    assert!(matches!(
        symbol_name(KAdm5Variant::HeimdalClient, KAdminOp::GetStrings),
        Err(Error::LibraryMismatch(_))
    ));
    assert!(matches!(
        symbol_name(KAdm5Variant::HeimdalServer, KAdminOp::SetString),
        Err(Error::LibraryMismatch(_))
    ));
    assert!(matches!(
        symbol_name(KAdm5Variant::HeimdalClient, KAdminOp::GetPolicies),
        Err(Error::LibraryMismatch(_))
    ));
    assert_eq!(
        symbol_name(KAdm5Variant::HeimdalServer, KAdminOp::GetPolicies).unwrap(),
        "kadm5_get_policies"
    );
    assert_eq!(
        symbol_name(KAdm5Variant::MitClient, KAdminOp::GetStrings).unwrap(),
        "kadm5_get_strings"
    );
}

#[test]
fn required_ops_match_support() {
    let mit_ops = required_ops(KAdm5Variant::MitClient);
    assert_eq!(mit_ops.len(), 43);
    let heimdal_client_ops = required_ops(KAdm5Variant::HeimdalClient);
    // MIT lists three string-attribute ops, five policy entry ops and the
    // policy listing that the Heimdal client library lacks
    assert_eq!(heimdal_client_ops.len(), 43 - 9);
    assert!(!heimdal_client_ops.contains(&KAdminOp::GetStrings));
    assert!(!heimdal_client_ops.contains(&KAdminOp::GetPolicies));
    let heimdal_server_ops = required_ops(KAdm5Variant::HeimdalServer);
    assert_eq!(heimdal_server_ops.len(), 43 - 8);
    assert!(heimdal_server_ops.contains(&KAdminOp::GetPolicies));
    for op in mit_ops.iter() {
        assert!(symbol_name(KAdm5Variant::MitClient, *op).is_ok());
    }
    for op in heimdal_client_ops.iter() {
        assert!(symbol_name(KAdm5Variant::HeimdalClient, *op).is_ok());
    }
}
