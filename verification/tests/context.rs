//! Context lifecycle: build, adoption, realm cache, teardown request.

use kadmin::context::Context;
use kadmin::context::ContextInitEvent;
use kadmin::sys::Library;
use kadmin::Error;
use kadmin::KAdm5Variant;

#[test]
fn build_from_native_success() {
    let library = Library::bind(KAdm5Variant::MitClient, 3);
    let context = Context::builder()
        .build(
            library,
            ContextInitEvent::Native { handle: 41, code: 0, message: String::new() },
        )
        .unwrap();
    assert_eq!(context.variant(), KAdm5Variant::MitClient);
    assert_eq!(context.handle(), 41);
    assert!(context.default_realm().is_none());
}

#[test]
fn build_from_native_failure_yields_no_context() {
    let library = Library::bind(KAdm5Variant::HeimdalServer, 3);
    let err = Context::builder()
        .build(
            library,
            ContextInitEvent::Native { handle: 0, code: 5, message: "init failed".to_string() },
        )
        .unwrap_err();
    match err {
        Error::Kerberos { code, message } => {
            assert_eq!(code, 5);
            assert_eq!(message, "init failed");
        }
        other => panic!("unexpected error: {:?}", other),
    }
}

#[test]
fn build_adopted_keeps_handle() {
    let library = Library::bind(KAdm5Variant::MitServer, 9);
    let builder = Context::builder().mit_context(77);
    assert!(!builder.needs_native_init());
    let context = builder.build(library, ContextInitEvent::Adopted).unwrap();
    assert_eq!(context.handle(), 77);
    assert_eq!(context.variant(), KAdm5Variant::MitServer);
}

#[test]
fn build_adopted_heimdal() {
    let library = Library::bind(KAdm5Variant::HeimdalClient, 9);
    let context = Context::builder()
        .heimdal_context(78)
        .build(library, ContextInitEvent::Adopted)
        .unwrap();
    assert_eq!(context.handle(), 78);
}

#[test]
fn default_realm_cache() {
    let library = Library::bind(KAdm5Variant::MitClient, 3);
    let mut context = Context::builder()
        .build(
            library,
            ContextInitEvent::Native { handle: 41, code: 0, message: String::new() },
        )
        .unwrap();
    context.fill_default_realm(Some("EXAMPLE.ORG".to_string()));
    assert_eq!(context.default_realm().unwrap(), "EXAMPLE.ORG");
    context.fill_default_realm(None);
    assert!(context.default_realm().is_none());
}

#[test]
fn free_request_names_same_library() {
    let library = Library::bind(KAdm5Variant::HeimdalClient, 12);
    let context = Context::builder()
        .build(
            library,
            ContextInitEvent::Native { handle: 90, code: 0, message: String::new() },
        )
        .unwrap();
    let free = context.free_request();
    assert_eq!(free.variant, KAdm5Variant::HeimdalClient);
    assert_eq!(free.image, 12);
    assert_eq!(free.handle, 90);
    assert_eq!(free.symbol, "krb5_free_context");
}

#[test]
fn new_wraps_native_outcome() {
    let library = Library::bind(KAdm5Variant::MitClient, 4);
    let context = Context::new(library, 51, 0, String::new()).unwrap();
    assert_eq!(context.handle(), 51);
    let library = Library::bind(KAdm5Variant::MitClient, 4);
    let err = Context::new(library, 0, 9, "boom".to_string()).unwrap_err();
    assert!(matches!(err, Error::Kerberos { code: 9, .. }));
}
