//! String validation, native time widths, and the parse-name flow.

use std::time::Duration;

use kadmin::context::Context;
use kadmin::context::ContextInitEvent;
use kadmin::conv::contains_nul;
use kadmin::conv::delta_to_dur;
use kadmin::conv::dur_to_delta;
use kadmin::conv::parse_name_request;
use kadmin::conv::ts_to_unix;
use kadmin::conv::unix_to_ts;
use kadmin::conv::ParsedName;
use kadmin::sys::Library;
use kadmin::Error;
use kadmin::KAdm5Variant;

fn test_context(variant: KAdm5Variant) -> Context {
    let library = Library::bind(variant, 1);
    Context::builder()
        .build(
            library,
            ContextInitEvent::Native { handle: 11, code: 0, message: String::new() },
        )
        .unwrap()
}

#[test]
fn nul_detection() {
    assert!(!contains_nul(""));
    assert!(!contains_nul("user@EXAMPLE.ORG"));
    assert!(contains_nul("a\0b"));
    assert!(contains_nul("\0"));
}

#[test]
fn delta_round_trip() {
    assert_eq!(dur_to_delta(delta_to_dur(0)).unwrap(), 0);
    assert_eq!(dur_to_delta(delta_to_dur(1)).unwrap(), 1);
    assert_eq!(dur_to_delta(delta_to_dur(86400)).unwrap(), 86400);
    assert_eq!(dur_to_delta(delta_to_dur(i32::MAX as i64)).unwrap(), i32::MAX);
}

#[test]
fn delta_zero_means_absent() {
    assert!(delta_to_dur(0).is_none());
    assert_eq!(delta_to_dur(7).unwrap(), Duration::from_secs(7));
}

#[test]
fn duration_too_long_is_rejected() {
    let err = dur_to_delta(Some(Duration::from_secs(i32::MAX as u64 + 1))).unwrap_err();
    assert!(matches!(err, Error::DateTimeConversion));
}

#[test]
fn timestamp_zero_means_absent() {
    assert!(ts_to_unix(0).is_none());
    assert_eq!(ts_to_unix(1700000000).unwrap(), 1700000000);
}

#[test]
fn timestamp_past_2038_wraps_unsigned() {
    assert_eq!(ts_to_unix(-1).unwrap(), 4294967295);
}

#[test]
fn unix_to_ts_bounds() {
    assert_eq!(unix_to_ts(None).unwrap(), 0);
    assert_eq!(unix_to_ts(Some(1700000000)).unwrap(), 1700000000);
    let err = unix_to_ts(Some(i32::MAX as i64 + 1)).unwrap_err();
    assert!(matches!(err, Error::DateTimeConversion));
}

#[test]
fn parse_name_request_symbols() {
    let context = test_context(KAdm5Variant::MitClient);
    let call = parse_name_request(&context, "user@EXAMPLE.ORG").unwrap();
    assert_eq!(call.parse_symbol, "krb5_parse_name");
    assert_eq!(call.unparse_symbol, "krb5_unparse_name");
    assert_eq!(call.free_unparsed_symbol, "krb5_free_unparsed_name");
    assert_eq!(call.context_handle, 11);
    assert_eq!(call.name, "user@EXAMPLE.ORG");
}

#[test]
fn parse_name_request_rejects_nul() {
    let context = test_context(KAdm5Variant::HeimdalServer);
    let err = parse_name_request(&context, "user\0name").unwrap_err();
    assert!(matches!(err, Error::StringConversion));
}

#[test]
fn parsed_name_validation() {
    let context = test_context(KAdm5Variant::MitClient);
    let parsed =
        ParsedName::from_native(&context, 0, String::new(), 21, 0, String::new()).unwrap();
    assert_eq!(parsed.raw(), 21);
    let free = parsed.free_request().unwrap();
    assert_eq!(free.symbol, "krb5_free_principal");
    assert_eq!(free.context_handle, 11);
    assert_eq!(free.raw, 21);
}

#[test]
fn parsed_name_parse_failure() {
    let context = test_context(KAdm5Variant::MitClient);
    let err = ParsedName::from_native(&context, 22, "parse failed".to_string(), 0, 0, String::new())
        .unwrap_err();
    match err {
        Error::Kerberos { code, message } => {
            assert_eq!(code, 22);
            assert_eq!(message, "parse failed");
        }
        other => panic!("unexpected error: {:?}", other),
    }
}

#[test]
fn parsed_name_unparse_failure() {
    let context = test_context(KAdm5Variant::HeimdalClient);
    let err =
        ParsedName::from_native(&context, 0, String::new(), 21, 33, "bad name".to_string())
            .unwrap_err();
    match err {
        Error::Kerberos { code, message } => {
            assert_eq!(code, 33);
            assert_eq!(message, "bad name");
        }
        other => panic!("unexpected error: {:?}", other),
    }
}

#[test]
fn parsed_name_null_needs_no_free() {
    let context = test_context(KAdm5Variant::MitServer);
    let parsed = ParsedName::from_native(&context, 0, String::new(), 0, 0, String::new()).unwrap();
    assert!(parsed.free_request().is_none());
}
