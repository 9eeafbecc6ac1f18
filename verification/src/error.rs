//! Structured errors, and the escape hatches that turn native status codes
//! into them.
//!
//! The two native families use two different error-code spaces. krb5 codes are
//! explained by a message fetched live from the native library; MIT's
//! kadm5-specific codes are explained by a fixed table kept here, because the
//! MIT library does not expose those strings through any call.

use vstd::prelude::*;

use crate::sys::KAdm5Variant;
use crate::sys::mit;

verus! {

/// Everything this library can report.
///
/// The krb5 and kadm5 code spaces stay distinguishable because their
/// code-to-message mapping differs by variant.
#[derive(Debug)]
pub enum Error {
    /// A krb5-space failure: the original code plus the message the native
    /// library returned for it.
    Kerberos {
        /// Native krb5 error code
        code: i64,
        /// Message fetched from the native library
        message: String,
    },
    /// A kadm5-space failure (distinct from the krb5 space on MIT).
    KAdmin {
        /// Native kadm5 status code
        code: i64,
        /// Human-readable explanation
        message: String,
    },
    /// A string that should have been present was a null pointer.
    NullPointerDereference,
    /// A string could not cross the boundary to native form because it holds
    /// an interior NUL character.
    StringConversion,
    /// A native timestamp could not be represented portably.
    TimestampConversion,
    /// A portable instant does not fit the native timestamp width.
    DateTimeConversion,
    /// A portable duration does not fit the native interval width.
    DurationConversion,
    /// A lifecycle lock could not be acquired.
    LockError,
    /// The shared library could not be loaded, or a required symbol was
    /// missing from it. Carries what the loader reported.
    LibraryLoadError(String),
    /// The live variant does not support the requested operation, or two
    /// parts built for different variants were combined. Carries which
    /// expectation was broken.
    LibraryMismatch(&'static str),
    /// The worker thread of a serialized session wrapper is gone and the
    /// operation could not be sent to it.
    ThreadSendError,
    /// The worker thread of a serialized session wrapper dropped the reply
    /// channel before answering.
    ThreadRecvError,
}

/// The message MIT's kadm5 error table assigns to `code`, or `None` when the
/// code is not a known kadm5-specific code (such codes are krb5-space codes
/// surfaced through the kadm5 return type).
pub open spec fn spec_mit_kadm5_message(code: i64) -> Option<Seq<char>> {
    if code == mit::KADM5_FAILURE {
        Some("Operation failed for unspecified reason"@)
    } else if code == mit::KADM5_AUTH_GET {
        Some("Operation requires ``get'' privilege"@)
    } else if code == mit::KADM5_AUTH_ADD {
        Some("Operation requires ``add'' privilege"@)
    } else if code == mit::KADM5_AUTH_MODIFY {
        Some("Operation requires ``modify'' privilege"@)
    } else if code == mit::KADM5_AUTH_DELETE {
        Some("Operation requires ``delete'' privilege"@)
    } else if code == mit::KADM5_AUTH_INSUFFICIENT {
        Some("Insufficient authorization for operation"@)
    } else if code == mit::KADM5_BAD_DB {
        Some("Database inconsistency detected"@)
    } else if code == mit::KADM5_DUP {
        Some("Principal or policy already exists"@)
    } else if code == mit::KADM5_RPC_ERROR {
        Some("Communication failure with server"@)
    } else if code == mit::KADM5_NO_SRV {
        Some("No administration server found for realm"@)
    } else if code == mit::KADM5_BAD_HIST_KEY {
        Some("Password history principal key version mismatch"@)
    } else if code == mit::KADM5_NOT_INIT {
        Some("Connection to server not initialized"@)
    } else if code == mit::KADM5_UNK_PRINC {
        Some("Principal does not exist"@)
    } else if code == mit::KADM5_UNK_POLICY {
        Some("Policy does not exist"@)
    } else if code == mit::KADM5_BAD_MASK {
        Some("Invalid field mask for operation"@)
    } else if code == mit::KADM5_BAD_CLASS {
        Some("Invalid number of character classes"@)
    } else if code == mit::KADM5_BAD_LENGTH {
        Some("Invalid password length"@)
    } else if code == mit::KADM5_BAD_POLICY {
        Some("Illegal policy name"@)
    } else if code == mit::KADM5_BAD_PRINCIPAL {
        Some("Illegal principal name"@)
    } else if code == mit::KADM5_BAD_AUX_ATTR {
        Some("Invalid auxillary attributes"@)
    } else if code == mit::KADM5_BAD_HISTORY {
        Some("Invalid password history count"@)
    } else if code == mit::KADM5_BAD_MIN_PASS_LIFE {
        Some("Password minimum life is greater then password maximum life"@)
    } else if code == mit::KADM5_PASS_Q_TOOSHORT {
        Some("Password is too short"@)
    } else if code == mit::KADM5_PASS_Q_CLASS {
        Some("Password does not contain enough character classes"@)
    } else if code == mit::KADM5_PASS_Q_DICT {
        Some("Password is in the password dictionary"@)
    } else if code == mit::KADM5_PASS_REUSE {
        Some("Cannot reuse password"@)
    } else if code == mit::KADM5_PASS_TOOSOON {
        Some("Current password's minimum life has not expired"@)
    } else if code == mit::KADM5_POLICY_REF {
        Some("Policy is in use"@)
    } else if code == mit::KADM5_INIT {
        Some("Connection to server already initialized"@)
    } else if code == mit::KADM5_BAD_PASSWORD {
        Some("Incorrect password"@)
    } else if code == mit::KADM5_PROTECT_PRINCIPAL {
        Some("Cannot change protected principal"@)
    } else if code == mit::KADM5_BAD_SERVER_HANDLE {
        Some("Programmer error! Bad Admin server handle"@)
    } else if code == mit::KADM5_BAD_STRUCT_VERSION {
        Some("Programmer error! Bad API structure version"@)
    } else if code == mit::KADM5_OLD_STRUCT_VERSION {
        Some(
            "API structure version specified by application is no longer supported (to fix, recompile application against current Admin API header files and libraries)"@,
        )
    } else if code == mit::KADM5_NEW_STRUCT_VERSION {
        Some(
            "API structure version specified by application is unknown to libraries (to fix, obtain current Admin API header files and libraries and recompile application)"@,
        )
    } else if code == mit::KADM5_BAD_API_VERSION {
        Some("Programmer error! Bad API version"@)
    } else if code == mit::KADM5_OLD_LIB_API_VERSION {
        Some(
            "API version specified by application is no longer supported by libraries (to fix, update application to adhere to current API version and recompile)"@,
        )
    } else if code == mit::KADM5_OLD_SERVER_API_VERSION {
        Some(
            "API version specified by application is no longer supported by server (to fix, update application to adhere to current API version and recompile)"@,
        )
    } else if code == mit::KADM5_NEW_LIB_API_VERSION {
        Some(
            "API version specified by application is unknown to libraries (to fix, obtain current Admin API header files and libraries and recompile application)"@,
        )
    } else if code == mit::KADM5_NEW_SERVER_API_VERSION {
        Some(
            "API version specified by application is unknown to server (to fix, obtain and install newest Admin Server)"@,
        )
    } else if code == mit::KADM5_SECURE_PRINC_MISSING {
        Some("Database error! Required principal missing"@)
    } else if code == mit::KADM5_NO_RENAME_SALT {
        Some("The salt type of the specified principal does not support renaming"@)
    } else if code == mit::KADM5_BAD_CLIENT_PARAMS {
        Some("Illegal configuration parameter for remote KADM5 client"@)
    } else if code == mit::KADM5_BAD_SERVER_PARAMS {
        Some("Illegal configuration parameter for local KADM5 client."@)
    } else if code == mit::KADM5_AUTH_LIST {
        Some("Operation requires ``list'' privilege"@)
    } else if code == mit::KADM5_AUTH_CHANGEPW {
        Some("Operation requires ``change-password'' privilege"@)
    } else if code == mit::KADM5_GSS_ERROR {
        Some("GSS-API (or Kerberos) error"@)
    } else if code == mit::KADM5_BAD_TL_TYPE {
        Some("Programmer error! Illegal tagged data list element type"@)
    } else if code == mit::KADM5_MISSING_CONF_PARAMS {
        Some("Required parameters in kdc.conf missing"@)
    } else if code == mit::KADM5_BAD_SERVER_NAME {
        Some("Bad krb5 admin server hostname"@)
    } else if code == mit::KADM5_AUTH_SETKEY {
        Some("Operation requires ``set-key'' privilege"@)
    } else if code == mit::KADM5_SETKEY_DUP_ENCTYPES {
        Some("Multiple values for single or folded enctype"@)
    } else if code == mit::KADM5_SETV4KEY_INVAL_ENCTYPE {
        Some("Invalid enctype for setv4key"@)
    } else if code == mit::KADM5_SETKEY3_ETYPE_MISMATCH {
        Some("Mismatched enctypes for setkey3"@)
    } else if code == mit::KADM5_MISSING_KRB5_CONF_PARAMS {
        Some("Missing parameters in krb5.conf required for kadmin client"@)
    } else if code == mit::KADM5_XDR_FAILURE {
        Some("XDR encoding error"@)
    } else if code == mit::KADM5_CANT_RESOLVE {
        Some(""@)
    } else if code == mit::KADM5_PASS_Q_GENERIC {
        Some("Database synchronization failed"@)
    } else {
        None
    }
}

/// Look up MIT's fixed message for a kadm5-specific code.
fn mit_kadm5_message(code: i64) -> (r: Option<&'static str>)
    ensures
        match r {
            Some(s) => spec_mit_kadm5_message(code) == Some(s@),
            None => spec_mit_kadm5_message(code) is None,
        },
{
    if code == mit::KADM5_FAILURE {
        Some("Operation failed for unspecified reason")
    } else if code == mit::KADM5_AUTH_GET {
        Some("Operation requires ``get'' privilege")
    } else if code == mit::KADM5_AUTH_ADD {
        Some("Operation requires ``add'' privilege")
    } else if code == mit::KADM5_AUTH_MODIFY {
        Some("Operation requires ``modify'' privilege")
    } else if code == mit::KADM5_AUTH_DELETE {
        Some("Operation requires ``delete'' privilege")
    } else if code == mit::KADM5_AUTH_INSUFFICIENT {
        Some("Insufficient authorization for operation")
    } else if code == mit::KADM5_BAD_DB {
        Some("Database inconsistency detected")
    } else if code == mit::KADM5_DUP {
        Some("Principal or policy already exists")
    } else if code == mit::KADM5_RPC_ERROR {
        Some("Communication failure with server")
    } else if code == mit::KADM5_NO_SRV {
        Some("No administration server found for realm")
    } else if code == mit::KADM5_BAD_HIST_KEY {
        Some("Password history principal key version mismatch")
    } else if code == mit::KADM5_NOT_INIT {
        Some("Connection to server not initialized")
    } else if code == mit::KADM5_UNK_PRINC {
        Some("Principal does not exist")
    } else if code == mit::KADM5_UNK_POLICY {
        Some("Policy does not exist")
    } else if code == mit::KADM5_BAD_MASK {
        Some("Invalid field mask for operation")
    } else if code == mit::KADM5_BAD_CLASS {
        Some("Invalid number of character classes")
    } else if code == mit::KADM5_BAD_LENGTH {
        Some("Invalid password length")
    } else if code == mit::KADM5_BAD_POLICY {
        Some("Illegal policy name")
    } else if code == mit::KADM5_BAD_PRINCIPAL {
        Some("Illegal principal name")
    } else if code == mit::KADM5_BAD_AUX_ATTR {
        Some("Invalid auxillary attributes")
    } else if code == mit::KADM5_BAD_HISTORY {
        Some("Invalid password history count")
    } else if code == mit::KADM5_BAD_MIN_PASS_LIFE {
        Some("Password minimum life is greater then password maximum life")
    } else if code == mit::KADM5_PASS_Q_TOOSHORT {
        Some("Password is too short")
    } else if code == mit::KADM5_PASS_Q_CLASS {
        Some("Password does not contain enough character classes")
    } else if code == mit::KADM5_PASS_Q_DICT {
        Some("Password is in the password dictionary")
    } else if code == mit::KADM5_PASS_REUSE {
        Some("Cannot reuse password")
    } else if code == mit::KADM5_PASS_TOOSOON {
        Some("Current password's minimum life has not expired")
    } else if code == mit::KADM5_POLICY_REF {
        Some("Policy is in use")
    } else if code == mit::KADM5_INIT {
        Some("Connection to server already initialized")
    } else if code == mit::KADM5_BAD_PASSWORD {
        Some("Incorrect password")
    } else if code == mit::KADM5_PROTECT_PRINCIPAL {
        Some("Cannot change protected principal")
    } else if code == mit::KADM5_BAD_SERVER_HANDLE {
        Some("Programmer error! Bad Admin server handle")
    } else if code == mit::KADM5_BAD_STRUCT_VERSION {
        Some("Programmer error! Bad API structure version")
    } else if code == mit::KADM5_OLD_STRUCT_VERSION {
        Some(
            "API structure version specified by application is no longer supported (to fix, recompile application against current Admin API header files and libraries)",
        )
    } else if code == mit::KADM5_NEW_STRUCT_VERSION {
        Some(
            "API structure version specified by application is unknown to libraries (to fix, obtain current Admin API header files and libraries and recompile application)",
        )
    } else if code == mit::KADM5_BAD_API_VERSION {
        Some("Programmer error! Bad API version")
    } else if code == mit::KADM5_OLD_LIB_API_VERSION {
        Some(
            "API version specified by application is no longer supported by libraries (to fix, update application to adhere to current API version and recompile)",
        )
    } else if code == mit::KADM5_OLD_SERVER_API_VERSION {
        Some(
            "API version specified by application is no longer supported by server (to fix, update application to adhere to current API version and recompile)",
        )
    } else if code == mit::KADM5_NEW_LIB_API_VERSION {
        Some(
            "API version specified by application is unknown to libraries (to fix, obtain current Admin API header files and libraries and recompile application)",
        )
    } else if code == mit::KADM5_NEW_SERVER_API_VERSION {
        Some(
            "API version specified by application is unknown to server (to fix, obtain and install newest Admin Server)",
        )
    } else if code == mit::KADM5_SECURE_PRINC_MISSING {
        Some("Database error! Required principal missing")
    } else if code == mit::KADM5_NO_RENAME_SALT {
        Some("The salt type of the specified principal does not support renaming")
    } else if code == mit::KADM5_BAD_CLIENT_PARAMS {
        Some("Illegal configuration parameter for remote KADM5 client")
    } else if code == mit::KADM5_BAD_SERVER_PARAMS {
        Some("Illegal configuration parameter for local KADM5 client.")
    } else if code == mit::KADM5_AUTH_LIST {
        Some("Operation requires ``list'' privilege")
    } else if code == mit::KADM5_AUTH_CHANGEPW {
        Some("Operation requires ``change-password'' privilege")
    } else if code == mit::KADM5_GSS_ERROR {
        Some("GSS-API (or Kerberos) error")
    } else if code == mit::KADM5_BAD_TL_TYPE {
        Some("Programmer error! Illegal tagged data list element type")
    } else if code == mit::KADM5_MISSING_CONF_PARAMS {
        Some("Required parameters in kdc.conf missing")
    } else if code == mit::KADM5_BAD_SERVER_NAME {
        Some("Bad krb5 admin server hostname")
    } else if code == mit::KADM5_AUTH_SETKEY {
        Some("Operation requires ``set-key'' privilege")
    } else if code == mit::KADM5_SETKEY_DUP_ENCTYPES {
        Some("Multiple values for single or folded enctype")
    } else if code == mit::KADM5_SETV4KEY_INVAL_ENCTYPE {
        Some("Invalid enctype for setv4key")
    } else if code == mit::KADM5_SETKEY3_ETYPE_MISMATCH {
        Some("Mismatched enctypes for setkey3")
    } else if code == mit::KADM5_MISSING_KRB5_CONF_PARAMS {
        Some("Missing parameters in krb5.conf required for kadmin client")
    } else if code == mit::KADM5_XDR_FAILURE {
        Some("XDR encoding error")
    } else if code == mit::KADM5_CANT_RESOLVE {
        Some("")
    } else if code == mit::KADM5_PASS_Q_GENERIC {
        Some("Database synchronization failed")
    } else {
        None
    }
}

/// Raise a krb5-space status code as a structured error.
///
/// `message` is the explanation the native library gave for `code`; it is
/// only meaningful (and only used) when `code` is not the success sentinel.
pub fn krb5_error_code_escape_hatch(code: i64, message: String) -> (r: Result<(), Error>)
    ensures
        r is Ok <==> code == crate::KRB5_OK,
        code != crate::KRB5_OK ==> (r matches Err(Error::Kerberos { code: c, message: m })
            && c == code && m@ == message@),
{
    if code == crate::KRB5_OK {
        Ok(())
    } else {
        Err(Error::Kerberos { code, message })
    }
}

/// The exact error a non-success kadm5 status code maps to: on Heimdal the
/// kadm5 and krb5 code spaces are unified, so the code becomes a Kerberos
/// error with the natively fetched message; on MIT, codes known to the fixed
/// kadm5 table become kadm5 errors with the table's wording, and any other
/// code is a krb5-space code surfaced through the kadm5 return type.
pub open spec fn spec_kadm5_error(
    variant: KAdm5Variant,
    code: i64,
    krb5_message: Seq<char>,
    e: Error,
) -> bool {
    if !variant.spec_is_mit() {
        e matches Error::Kerberos { code: c, message: m } && c == code && m@ == krb5_message
    } else {
        match spec_mit_kadm5_message(code) {
            Some(table_message) => e matches Error::KAdmin { code: c, message: m } && c == code
                && m@ == table_message,
            None => e matches Error::Kerberos { code: c, message: m } && c == code && m@
                == krb5_message,
        }
    }
}

/// Raise a kadm5-space status code as a structured error.
///
/// On Heimdal the kadm5 and krb5 code spaces are unified, so the code is
/// raised as a Kerberos error with the natively fetched `krb5_message`. On
/// MIT, codes known to the fixed kadm5 table become kadm5 errors with the
/// table's wording; any other code is a krb5-space code surfaced through the
/// kadm5 return type and falls back to the krb5 path.
pub fn kadm5_ret_t_escape_hatch(variant: KAdm5Variant, code: i64, krb5_message: String) -> (r:
    Result<(), Error>)
    ensures
        r is Ok <==> code == crate::KADM5_OK,
        r matches Err(e) ==> spec_kadm5_error(variant, code, krb5_message@, e),
{
    if code == crate::KADM5_OK {
        return Ok(());
    }
    if !variant.is_mit() {
        return krb5_error_code_escape_hatch(code, krb5_message);
    }
    match mit_kadm5_message(code) {
        Some(table_message) => Err(
            Error::KAdmin { code, message: table_message.to_owned() },
        ),
        None => krb5_error_code_escape_hatch(code, krb5_message),
    }
}

} // verus!
