//! The two error escape hatches.

use kadmin::error::kadm5_ret_t_escape_hatch;
use kadmin::error::krb5_error_code_escape_hatch;
use kadmin::sys::mit;
use kadmin::Error;
use kadmin::KAdm5Variant;

#[test]
fn krb5_ok_is_ok() {
    assert!(krb5_error_code_escape_hatch(0, String::new()).is_ok());
}

#[test]
fn krb5_error_keeps_code_and_message() {
    let err = krb5_error_code_escape_hatch(-1765328384, "No error".to_string()).unwrap_err();
    match err {
        Error::Kerberos { code, message } => {
            assert_eq!(code, -1765328384);
            assert_eq!(message, "No error");
        }
        other => panic!("unexpected error: {:?}", other),
    }
}

#[test]
fn kadm5_ok_for_every_variant() {
    let variants = [
        KAdm5Variant::MitClient,
        KAdm5Variant::MitServer,
        KAdm5Variant::HeimdalClient,
        KAdm5Variant::HeimdalServer,
    ];
    for variant in variants {
        assert!(kadm5_ret_t_escape_hatch(variant, 0, String::new()).is_ok());
    }
}

#[test]
fn kadm5_mit_table_strings() {
    let cases: [(i64, &str); 5] = [
        (mit::KADM5_FAILURE, "Operation failed for unspecified reason"),
        (mit::KADM5_UNK_PRINC, "Principal does not exist"),
        (mit::KADM5_UNK_POLICY, "Policy does not exist"),
        (mit::KADM5_DUP, "Principal or policy already exists"),
        (mit::KADM5_PASS_Q_GENERIC, "Database synchronization failed"),
    ];
    for (code, expected) in cases {
        let err =
            kadm5_ret_t_escape_hatch(KAdm5Variant::MitClient, code, "ignored".to_string())
                .unwrap_err();
        match err {
            Error::KAdmin { code: c, message } => {
                assert_eq!(c, code);
                assert_eq!(message, expected);
            }
            other => panic!("unexpected error: {:?}", other),
        }
    }
}

#[test]
fn kadm5_heimdal_delegates_to_krb5_space() {
    let err = kadm5_ret_t_escape_hatch(
        KAdm5Variant::HeimdalClient,
        mit::KADM5_UNK_PRINC,
        "fetched natively".to_string(),
    )
    .unwrap_err();
    match err {
        Error::Kerberos { code, message } => {
            assert_eq!(code, mit::KADM5_UNK_PRINC);
            assert_eq!(message, "fetched natively");
        }
        other => panic!("unexpected error: {:?}", other),
    }
}

#[test]
fn kadm5_mit_unknown_code_falls_back_to_krb5_space() {
    let err = kadm5_ret_t_escape_hatch(KAdm5Variant::MitServer, -1, "Unknown code".to_string())
        .unwrap_err();
    match err {
        Error::Kerberos { code, message } => {
            assert_eq!(code, -1);
            assert_eq!(message, "Unknown code");
        }
        other => panic!("unexpected error: {:?}", other),
    }
}

#[test]
fn kadm5_codes_are_sequential() {
    assert_eq!(mit::KADM5_FAILURE, 43787520);
    assert_eq!(mit::KADM5_UNK_PRINC, 43787532);
    assert_eq!(mit::KADM5_PASS_Q_GENERIC, 43787577);
}
