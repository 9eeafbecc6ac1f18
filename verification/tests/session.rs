//! Session builder gates, entry points, operations and teardown.

use kadmin::context::Context;
use kadmin::context::ContextInitEvent;
use kadmin::kadmin::ccache_request;
use kadmin::kadmin::ContextPlan;
use kadmin::kadmin::KAdmin;
use kadmin::kadmin::KAdminApiVersion;
use kadmin::sys::Library;
use kadmin::params::Params;
use kadmin::Error;
use kadmin::KAdm5Variant;

fn test_context(variant: KAdm5Variant) -> Context {
    let library = Library::bind(variant, 1);
    Context::builder()
        .build(
            library,
            ContextInitEvent::Native { handle: 11, code: 0, message: String::new() },
        )
        .unwrap()
}

fn live_session(variant: KAdm5Variant) -> KAdmin {
    let context = test_context(variant);
    let entry = if variant.is_client() {
        KAdmin::builder(variant).with_password(context, "admin", "hunter2").unwrap()
    } else {
        KAdmin::builder(variant).with_local(context).unwrap()
    };
    entry.complete(99, 0, String::new()).unwrap()
}

#[test]
fn context_plan_rejects_both_sources() {
    let library = Library::bind(KAdm5Variant::MitClient, 1);
    let context = test_context(KAdm5Variant::MitClient);
    let builder = KAdmin::builder(KAdm5Variant::MitClient).library(library).context(context);
    let err = builder.context_plan().unwrap_err();
    assert!(matches!(err, Error::LibraryMismatch(_)));
}

#[test]
fn context_plan_rejects_mismatched_library() {
    let library = Library::bind(KAdm5Variant::HeimdalClient, 1);
    let builder = KAdmin::builder(KAdm5Variant::MitClient).library(library);
    let err = builder.context_plan().unwrap_err();
    assert!(matches!(err, Error::LibraryMismatch(_)));
}

#[test]
fn context_plan_selects_source() {
    let builder = KAdmin::builder(KAdm5Variant::MitClient);
    assert_eq!(builder.context_plan().unwrap(), ContextPlan::LoadLibrary);
    let library = Library::bind(KAdm5Variant::MitClient, 1);
    let builder = KAdmin::builder(KAdm5Variant::MitClient).library(library);
    assert_eq!(builder.context_plan().unwrap(), ContextPlan::UseLibrary);
    let context = test_context(KAdm5Variant::MitClient);
    let mut builder = KAdmin::builder(KAdm5Variant::MitClient).context(context);
    assert_eq!(builder.context_plan().unwrap(), ContextPlan::UseContext);
    let taken = builder.take_context().unwrap();
    assert_eq!(taken.variant(), KAdm5Variant::MitClient);
}

#[test]
fn mismatched_context_is_rejected_before_any_call() {
    // a context built for one variant handed to a builder for another
    let context = test_context(KAdm5Variant::HeimdalClient);
    let err = KAdmin::builder(KAdm5Variant::MitClient)
        .with_password(context, "admin", "hunter2")
        .unwrap_err();
    assert!(matches!(err, Error::LibraryMismatch(_)));
}

#[test]
fn with_password_builds_init_call() {
    let context = test_context(KAdm5Variant::MitClient);
    let init = KAdmin::builder(KAdm5Variant::MitClient)
        .with_password(context, "admin/admin@EXAMPLE.ORG", "hunter2")
        .unwrap();
    assert_eq!(init.call.symbol, "kadm5_init_with_password");
    assert_eq!(init.call.client_name, "admin/admin@EXAMPLE.ORG");
    assert_eq!(init.call.password.as_deref(), Some("hunter2"));
    assert_eq!(init.call.service_name, "kadmin/admin");
    assert_eq!(init.call.struct_version, 0x12345601);
    assert_eq!(init.call.api_version, 0x12345702);
    assert_eq!(init.call.ccache, 0);
    assert!(init.call.keytab.is_none());
}

#[test]
fn with_password_heimdal_symbol() {
    let context = test_context(KAdm5Variant::HeimdalClient);
    let init = KAdmin::builder(KAdm5Variant::HeimdalClient)
        .with_password(context, "admin", "hunter2")
        .unwrap();
    assert_eq!(init.call.symbol, "kadm5_init_with_password_ctx");
}

#[test]
fn with_password_needs_client_role() {
    let context = test_context(KAdm5Variant::MitServer);
    let err = KAdmin::builder(KAdm5Variant::MitServer)
        .with_password(context, "admin", "hunter2")
        .unwrap_err();
    assert!(matches!(err, Error::LibraryMismatch(_)));
}

#[test]
fn with_password_rejects_nul() {
    let context = test_context(KAdm5Variant::MitClient);
    let err = KAdmin::builder(KAdm5Variant::MitClient)
        .with_password(context, "admin", "hun\0ter2")
        .unwrap_err();
    assert!(matches!(err, Error::StringConversion));
}

#[test]
fn api_version_gate() {
    assert_eq!(
        KAdminApiVersion::Version4.to_raw(KAdm5Variant::MitClient).unwrap(),
        0x12345704
    );
    assert!(matches!(
        KAdminApiVersion::Version4.to_raw(KAdm5Variant::HeimdalServer),
        Err(Error::LibraryMismatch(_))
    ));
    let context = test_context(KAdm5Variant::HeimdalClient);
    let err = KAdmin::builder(KAdm5Variant::HeimdalClient)
        .api_version(KAdminApiVersion::Version3)
        .with_password(context, "admin", "hunter2")
        .unwrap_err();
    assert!(matches!(err, Error::LibraryMismatch(_)));
}

#[test]
fn with_keytab_defaults() {
    let context = test_context(KAdm5Variant::MitClient);
    let init = KAdmin::builder(KAdm5Variant::MitClient)
        .with_keytab(context, None, None, Some("host/kdc.example.org@EXAMPLE.ORG"))
        .unwrap();
    assert_eq!(init.call.symbol, "kadm5_init_with_skey");
    assert_eq!(init.call.client_name, "host/kdc.example.org@EXAMPLE.ORG");
    assert_eq!(init.call.keytab.as_deref(), Some("/etc/krb5.keytab"));
}

#[test]
fn with_keytab_explicit_name_wins() {
    let context = test_context(KAdm5Variant::MitClient);
    let init = KAdmin::builder(KAdm5Variant::MitClient)
        .with_keytab(context, Some("admin"), Some("/tmp/kt"), Some("host/other"))
        .unwrap();
    assert_eq!(init.call.client_name, "admin");
    assert_eq!(init.call.keytab.as_deref(), Some("/tmp/kt"));
}

#[test]
fn with_keytab_missing_client_resolution() {
    let context = test_context(KAdm5Variant::MitClient);
    let err = KAdmin::builder(KAdm5Variant::MitClient)
        .with_keytab(context, None, None, None)
        .unwrap_err();
    assert!(matches!(err, Error::NullPointerDereference));
}

#[test]
fn with_ccache_uses_cache_principal() {
    let context = test_context(KAdm5Variant::HeimdalClient);
    let init = KAdmin::builder(KAdm5Variant::HeimdalClient)
        .with_ccache(context, None, 55, Some("admin@EXAMPLE.ORG"))
        .unwrap();
    assert_eq!(init.call.symbol, "kadm5_init_with_creds_ctx");
    assert_eq!(init.call.client_name, "admin@EXAMPLE.ORG");
    assert_eq!(init.call.ccache, 55);
}

#[test]
fn ccache_request_decides_symbol() {
    let resolve = ccache_request(KAdm5Variant::MitClient, Some("FILE:/tmp/cc")).unwrap();
    assert_eq!(resolve.symbol, "krb5_cc_resolve");
    assert_eq!(resolve.name.as_deref(), Some("FILE:/tmp/cc"));
    let default = ccache_request(KAdm5Variant::MitClient, None).unwrap();
    assert_eq!(default.symbol, "krb5_cc_default");
    assert!(default.name.is_none());
}

#[test]
fn with_anonymous_is_not_implemented() {
    let err = KAdmin::builder(KAdm5Variant::MitClient).with_anonymous("admin").unwrap_err();
    assert!(matches!(err, Error::LibraryMismatch(_)));
}

#[test]
fn with_local_derives_client_from_realm() {
    let library = Library::bind(KAdm5Variant::MitServer, 1);
    let mut context = Context::builder()
        .build(
            library,
            ContextInitEvent::Native { handle: 11, code: 0, message: String::new() },
        )
        .unwrap();
    context.fill_default_realm(Some("EXAMPLE.ORG".to_string()));
    let init = KAdmin::builder(KAdm5Variant::MitServer).with_local(context).unwrap();
    assert_eq!(init.call.client_name, "root/admin@EXAMPLE.ORG");
    assert_eq!(init.call.symbol, "kadm5_init_with_creds");
    assert_eq!(init.call.ccache, 0);
}

#[test]
fn with_local_without_realm() {
    let context = test_context(KAdm5Variant::HeimdalServer);
    let init = KAdmin::builder(KAdm5Variant::HeimdalServer).with_local(context).unwrap();
    assert_eq!(init.call.client_name, "root/admin");
    assert_eq!(init.call.symbol, "kadm5_init_with_creds_ctx");
}

#[test]
fn with_local_needs_server_role() {
    let context = test_context(KAdm5Variant::HeimdalClient);
    let err = KAdmin::builder(KAdm5Variant::HeimdalClient).with_local(context).unwrap_err();
    assert!(matches!(err, Error::LibraryMismatch(_)));
}

#[test]
fn complete_failure_yields_no_session() {
    let context = test_context(KAdm5Variant::MitClient);
    let init = KAdmin::builder(KAdm5Variant::MitClient)
        .with_password(context, "admin", "hunter2")
        .unwrap();
    let err = init.complete(0, 43787532, String::new()).unwrap_err();
    match err {
        Error::KAdmin { code, message } => {
            assert_eq!(code, 43787532);
            assert_eq!(message, "Principal does not exist");
        }
        other => panic!("unexpected error: {:?}", other),
    }
}

#[test]
fn complete_success_keeps_handles() {
    let kadmin = live_session(KAdm5Variant::MitClient);
    assert_eq!(kadmin.variant(), KAdm5Variant::MitClient);
    assert_eq!(kadmin.server_handle(), 99);
    assert_eq!(kadmin.context().handle(), 11);
}

#[test]
fn null_handle_needs_no_teardown() {
    let context = test_context(KAdm5Variant::MitClient);
    let init = KAdmin::builder(KAdm5Variant::MitClient)
        .with_password(context, "admin", "hunter2")
        .unwrap();
    let kadmin = init.complete(0, 0, String::new()).unwrap();
    assert!(kadmin.teardown_request().is_none());
}

#[test]
fn live_handle_teardown_flushes_then_destroys() {
    let kadmin = live_session(KAdm5Variant::HeimdalServer);
    let teardown = kadmin.teardown_request().unwrap();
    assert_eq!(teardown.flush_symbol, "kadm5_flush");
    assert_eq!(teardown.destroy_symbol, "kadm5_destroy");
    assert_eq!(teardown.server_handle, 99);
    assert_eq!(teardown.variant, KAdm5Variant::HeimdalServer);
}

#[test]
fn rename_and_delete_calls() {
    let kadmin = live_session(KAdm5Variant::MitClient);
    let rename = kadmin.rename_principal("old@EXAMPLE.ORG", "new@EXAMPLE.ORG").unwrap();
    assert_eq!(rename.symbol, "kadm5_rename_principal");
    assert_eq!(rename.server_handle, 99);
    assert_eq!(rename.old_name, "old@EXAMPLE.ORG");
    assert_eq!(rename.new_name, "new@EXAMPLE.ORG");
    let delete = kadmin.delete_principal("old@EXAMPLE.ORG").unwrap();
    assert_eq!(delete.symbol, "kadm5_delete_principal");
    assert_eq!(delete.name, "old@EXAMPLE.ORG");
    let err = kadmin.delete_principal("bad\0name").unwrap_err();
    assert!(matches!(err, Error::StringConversion));
}

#[test]
fn principal_get_strings_requires_mit() {
    let kadmin = live_session(KAdm5Variant::HeimdalClient);
    let err = kadmin.principal_get_strings("user@EXAMPLE.ORG").unwrap_err();
    assert!(matches!(err, Error::LibraryMismatch(_)));
    let kadmin = live_session(KAdm5Variant::HeimdalServer);
    let err = kadmin.principal_get_strings("user@EXAMPLE.ORG").unwrap_err();
    assert!(matches!(err, Error::LibraryMismatch(_)));
}

#[test]
fn principal_get_strings_on_mit() {
    let kadmin = live_session(KAdm5Variant::MitClient);
    let call = kadmin.principal_get_strings("user@EXAMPLE.ORG").unwrap();
    assert_eq!(call.symbol, "kadm5_get_strings");
    assert_eq!(call.free_symbol, "kadm5_free_strings");
    assert_eq!(call.name, "user@EXAMPLE.ORG");
    let strings = vec![("session_enctypes".to_string(), "aes256-cts".to_string())];
    let out = kadmin.principal_get_strings_result(0, strings.clone(), String::new()).unwrap();
    assert_eq!(out, strings);
}

#[test]
fn principal_set_string_call() {
    let kadmin = live_session(KAdm5Variant::MitServer);
    let call = kadmin
        .principal_set_string("user@EXAMPLE.ORG", "session_enctypes", Some("aes256-cts"))
        .unwrap();
    assert_eq!(call.symbol, "kadm5_set_string");
    assert_eq!(call.key, "session_enctypes");
    assert_eq!(call.value.as_deref(), Some("aes256-cts"));
    let removal = kadmin.principal_set_string("user@EXAMPLE.ORG", "k", None).unwrap();
    assert!(removal.value.is_none());
}

#[test]
fn list_principals_defaults_query() {
    let kadmin = live_session(KAdm5Variant::MitClient);
    let call = kadmin.list_principals(None).unwrap();
    assert_eq!(call.symbol, "kadm5_get_principals");
    assert_eq!(call.free_symbol, "kadm5_free_name_list");
    assert_eq!(call.query, "*");
    let call = kadmin.list_principals(Some("user*")).unwrap();
    assert_eq!(call.query, "user*");
}

#[test]
fn list_policies_needs_support() {
    let kadmin = live_session(KAdm5Variant::HeimdalClient);
    let err = kadmin.list_policies(None).unwrap_err();
    assert!(matches!(err, Error::LibraryMismatch(_)));
    let kadmin = live_session(KAdm5Variant::HeimdalServer);
    let call = kadmin.list_policies(None).unwrap();
    assert_eq!(call.symbol, "kadm5_get_policies");
}

#[test]
fn name_list_result_copies_or_raises() {
    let kadmin = live_session(KAdm5Variant::MitClient);
    let names = vec!["user@EXAMPLE.ORG".to_string(), "admin/admin@EXAMPLE.ORG".to_string()];
    let out = kadmin.name_list_result(0, names.clone(), String::new()).unwrap();
    assert_eq!(out, names);
    for name in out.iter() {
        assert!(name.contains('@'));
    }
    let err = kadmin.name_list_result(43787528, vec![], String::new()).unwrap_err();
    match err {
        Error::KAdmin { code, message } => {
            assert_eq!(code, 43787528);
            assert_eq!(message, "Communication failure with server");
        }
        other => panic!("unexpected error: {:?}", other),
    }
}

#[test]
fn privileges_read() {
    let kadmin = live_session(KAdm5Variant::MitServer);
    let call = kadmin.get_privileges();
    assert_eq!(call.symbol, "kadm5_get_privs");
    assert_eq!(call.server_handle, 99);
    assert_eq!(kadmin.get_privileges_result(0, 0x1f, String::new()).unwrap(), 0x1f);
    assert!(kadmin.get_privileges_result(43787521, 0, String::new()).is_err());
}

#[test]
fn op_status_maps_codes() {
    let kadmin = live_session(KAdm5Variant::MitClient);
    assert!(kadmin.op_status(0, String::new()).is_ok());
    let err = kadmin.op_status(43787533, String::new()).unwrap_err();
    match err {
        Error::KAdmin { code, message } => {
            assert_eq!(code, 43787533);
            assert_eq!(message, "Policy does not exist");
        }
        other => panic!("unexpected error: {:?}", other),
    }
}

#[test]
fn change_password_routes_by_keepold() {
    let kadmin = live_session(KAdm5Variant::MitClient);
    let call = kadmin
        .principal_change_password("user@EXAMPLE.ORG", "n3w-p4ss", None)
        .unwrap();
    assert_eq!(call.symbol, "kadm5_chpass_principal");
    assert!(!call.keepold);
    assert_eq!(call.password, "n3w-p4ss");
    let call = kadmin
        .principal_change_password("user@EXAMPLE.ORG", "n3w-p4ss", Some(true))
        .unwrap();
    assert_eq!(call.symbol, "kadm5_chpass_principal_3");
    assert!(call.keepold);
    let err = kadmin
        .principal_change_password("user@EXAMPLE.ORG", "bad\0pass", None)
        .unwrap_err();
    assert!(matches!(err, Error::StringConversion));
}

#[test]
fn randkey_routes_by_keepold() {
    let kadmin = live_session(KAdm5Variant::HeimdalServer);
    let call = kadmin.principal_randkey("user@EXAMPLE.ORG", None).unwrap();
    assert_eq!(call.symbol, "kadm5_randkey_principal");
    let call = kadmin.principal_randkey("user@EXAMPLE.ORG", Some(true)).unwrap();
    assert_eq!(call.symbol, "kadm5_randkey_principal_3");
    assert_eq!(call.server_handle, 99);
}

#[test]
fn with_password_params_nul_is_string_conversion() {
    let context = test_context(KAdm5Variant::MitClient);
    let err = KAdmin::builder(KAdm5Variant::MitClient)
        .params(Params::new().realm("EXAMPLE\0ORG"))
        .with_password(context, "admin", "hunter2")
        .unwrap_err();
    assert!(matches!(err, Error::StringConversion));
}

#[test]
fn with_ccache_missing_client_resolution() {
    let context = test_context(KAdm5Variant::MitClient);
    let err = KAdmin::builder(KAdm5Variant::MitClient)
        .with_ccache(context, None, 55, None)
        .unwrap_err();
    assert!(matches!(err, Error::NullPointerDereference));
}

#[test]
fn with_keytab_needs_client_role() {
    let context = test_context(KAdm5Variant::HeimdalServer);
    let err = KAdmin::builder(KAdm5Variant::HeimdalServer)
        .with_keytab(context, Some("admin"), None, None)
        .unwrap_err();
    assert!(matches!(err, Error::LibraryMismatch(_)));
}
