//! Constants and search locations for the MIT krb5 family.

use vstd::prelude::*;

verus! {

/// kadm5 API version 2 as encoded by the MIT headers.
pub const KADM5_API_VERSION_2: u32 = 0x12345702;

/// kadm5 API version 3 (MIT only).
pub const KADM5_API_VERSION_3: u32 = 0x12345703;

/// kadm5 API version 4 (MIT only).
pub const KADM5_API_VERSION_4: u32 = 0x12345704;

/// kadm5 structure version expected by the MIT entry points.
pub const KADM5_STRUCT_VERSION: u32 = 0x12345601;

/// Principal-name type used when deriving a default `host/...` client name.
pub const KRB5_NT_SRV_HST: i32 = 3;

/// Config-parameter mask bit: the realm field is set.
pub const KADM5_CONFIG_REALM: i64 = 0x00000001;

/// Config-parameter mask bit: the database name field is set.
pub const KADM5_CONFIG_DBNAME: i64 = 0x00000002;

/// Config-parameter mask bit: the stash file field is set.
pub const KADM5_CONFIG_STASH_FILE: i64 = 0x00000100;

/// Config-parameter mask bit: the ACL file field is set.
pub const KADM5_CONFIG_ACL_FILE: i64 = 0x00002000;

/// Config-parameter mask bit: the kadmind port field is set.
pub const KADM5_CONFIG_KADMIND_PORT: i64 = 0x00004000;

/// Config-parameter mask bit: the admin server field is set.
pub const KADM5_CONFIG_ADMIN_SERVER: i64 = 0x00010000;

/// Config-parameter mask bit: the dictionary file field is set.
pub const KADM5_CONFIG_DICT_FILE: i64 = 0x00020000;

/// Config-parameter mask bit: the kpasswd port field is set.
pub const KADM5_CONFIG_KPASSWD_PORT: i64 = 0x00080000;

/// First code of the MIT kadm5 error table (com_err table `ovk`).
pub const KADM5_FAILURE: i64 = 43787520;

/// Operation requires the get privilege.
pub const KADM5_AUTH_GET: i64 = KADM5_FAILURE + 1;

/// Operation requires the add privilege.
pub const KADM5_AUTH_ADD: i64 = KADM5_FAILURE + 2;

/// Operation requires the modify privilege.
pub const KADM5_AUTH_MODIFY: i64 = KADM5_FAILURE + 3;

/// Operation requires the delete privilege.
pub const KADM5_AUTH_DELETE: i64 = KADM5_FAILURE + 4;

/// Insufficient authorization.
pub const KADM5_AUTH_INSUFFICIENT: i64 = KADM5_FAILURE + 5;

/// Database inconsistency.
pub const KADM5_BAD_DB: i64 = KADM5_FAILURE + 6;

/// Principal or policy already exists.
pub const KADM5_DUP: i64 = KADM5_FAILURE + 7;

/// Communication failure with the server.
pub const KADM5_RPC_ERROR: i64 = KADM5_FAILURE + 8;

/// No administration server found for the realm.
pub const KADM5_NO_SRV: i64 = KADM5_FAILURE + 9;

/// Password history principal key version mismatch.
pub const KADM5_BAD_HIST_KEY: i64 = KADM5_FAILURE + 10;

/// Connection to the server not initialized.
pub const KADM5_NOT_INIT: i64 = KADM5_FAILURE + 11;

/// Principal does not exist.
pub const KADM5_UNK_PRINC: i64 = KADM5_FAILURE + 12;

/// Policy does not exist.
pub const KADM5_UNK_POLICY: i64 = KADM5_FAILURE + 13;

/// Invalid field mask for the operation.
pub const KADM5_BAD_MASK: i64 = KADM5_FAILURE + 14;

/// Invalid number of character classes.
pub const KADM5_BAD_CLASS: i64 = KADM5_FAILURE + 15;

/// Invalid password length.
pub const KADM5_BAD_LENGTH: i64 = KADM5_FAILURE + 16;

/// Illegal policy name.
pub const KADM5_BAD_POLICY: i64 = KADM5_FAILURE + 17;

/// Illegal principal name.
pub const KADM5_BAD_PRINCIPAL: i64 = KADM5_FAILURE + 18;

/// Invalid auxiliary attributes.
pub const KADM5_BAD_AUX_ATTR: i64 = KADM5_FAILURE + 19;

/// Invalid password history count.
pub const KADM5_BAD_HISTORY: i64 = KADM5_FAILURE + 20;

/// Password minimum life exceeds password maximum life.
pub const KADM5_BAD_MIN_PASS_LIFE: i64 = KADM5_FAILURE + 21;

/// Password is too short.
pub const KADM5_PASS_Q_TOOSHORT: i64 = KADM5_FAILURE + 22;

/// Password has too few character classes.
pub const KADM5_PASS_Q_CLASS: i64 = KADM5_FAILURE + 23;

/// Password is in the dictionary.
pub const KADM5_PASS_Q_DICT: i64 = KADM5_FAILURE + 24;

/// Password reuse is not allowed.
pub const KADM5_PASS_REUSE: i64 = KADM5_FAILURE + 25;

/// Current password's minimum life has not expired.
pub const KADM5_PASS_TOOSOON: i64 = KADM5_FAILURE + 26;

/// Policy is still in use.
pub const KADM5_POLICY_REF: i64 = KADM5_FAILURE + 27;

/// Connection to the server already initialized.
pub const KADM5_INIT: i64 = KADM5_FAILURE + 28;

/// Incorrect password.
pub const KADM5_BAD_PASSWORD: i64 = KADM5_FAILURE + 29;

/// Cannot change a protected principal.
pub const KADM5_PROTECT_PRINCIPAL: i64 = KADM5_FAILURE + 30;

/// Bad admin server handle.
pub const KADM5_BAD_SERVER_HANDLE: i64 = KADM5_FAILURE + 31;

/// Bad API structure version.
pub const KADM5_BAD_STRUCT_VERSION: i64 = KADM5_FAILURE + 32;

/// API structure version no longer supported.
pub const KADM5_OLD_STRUCT_VERSION: i64 = KADM5_FAILURE + 33;

/// API structure version unknown to the libraries.
pub const KADM5_NEW_STRUCT_VERSION: i64 = KADM5_FAILURE + 34;

/// Bad API version.
pub const KADM5_BAD_API_VERSION: i64 = KADM5_FAILURE + 35;

/// API version no longer supported by the libraries.
pub const KADM5_OLD_LIB_API_VERSION: i64 = KADM5_FAILURE + 36;

/// API version no longer supported by the server.
pub const KADM5_OLD_SERVER_API_VERSION: i64 = KADM5_FAILURE + 37;

/// API version unknown to the libraries.
pub const KADM5_NEW_LIB_API_VERSION: i64 = KADM5_FAILURE + 38;

/// API version unknown to the server.
pub const KADM5_NEW_SERVER_API_VERSION: i64 = KADM5_FAILURE + 39;

/// Required principal missing from the database.
pub const KADM5_SECURE_PRINC_MISSING: i64 = KADM5_FAILURE + 40;

/// The principal's salt type does not support renaming.
pub const KADM5_NO_RENAME_SALT: i64 = KADM5_FAILURE + 41;

/// Illegal configuration parameter for a remote client.
pub const KADM5_BAD_CLIENT_PARAMS: i64 = KADM5_FAILURE + 42;

/// Illegal configuration parameter for a local client.
pub const KADM5_BAD_SERVER_PARAMS: i64 = KADM5_FAILURE + 43;

/// Operation requires the list privilege.
pub const KADM5_AUTH_LIST: i64 = KADM5_FAILURE + 44;

/// Operation requires the change-password privilege.
pub const KADM5_AUTH_CHANGEPW: i64 = KADM5_FAILURE + 45;

/// GSS-API or Kerberos error.
pub const KADM5_GSS_ERROR: i64 = KADM5_FAILURE + 46;

/// Illegal tagged data list element type.
pub const KADM5_BAD_TL_TYPE: i64 = KADM5_FAILURE + 47;

/// Required parameters in kdc.conf missing.
pub const KADM5_MISSING_CONF_PARAMS: i64 = KADM5_FAILURE + 48;

/// Bad admin server hostname.
pub const KADM5_BAD_SERVER_NAME: i64 = KADM5_FAILURE + 49;

/// Operation requires the set-key privilege.
pub const KADM5_AUTH_SETKEY: i64 = KADM5_FAILURE + 50;

/// Multiple values for a single or folded enctype.
pub const KADM5_SETKEY_DUP_ENCTYPES: i64 = KADM5_FAILURE + 51;

/// Invalid enctype for setv4key.
pub const KADM5_SETV4KEY_INVAL_ENCTYPE: i64 = KADM5_FAILURE + 52;

/// Mismatched enctypes for setkey3.
pub const KADM5_SETKEY3_ETYPE_MISMATCH: i64 = KADM5_FAILURE + 53;

/// Missing parameters in krb5.conf.
pub const KADM5_MISSING_KRB5_CONF_PARAMS: i64 = KADM5_FAILURE + 54;

/// XDR encoding error.
pub const KADM5_XDR_FAILURE: i64 = KADM5_FAILURE + 55;

/// Hostname could not be resolved.
pub const KADM5_CANT_RESOLVE: i64 = KADM5_FAILURE + 56;

/// Database synchronization failed.
pub const KADM5_PASS_Q_GENERIC: i64 = KADM5_FAILURE + 57;

/// The directories searched for an MIT kadm5 shared library, in order.
pub open spec fn spec_library_paths() -> Seq<Seq<char>> {
    seq!["/usr/local/lib"@, "/usr/lib/x86_64-linux-gnu"@, "/usr/lib64"@, "/usr/lib"@]
}

/// The MIT kadm5 library names tried inside each search directory.
pub open spec fn spec_libraries() -> Seq<Seq<char>> {
    seq!["kadm5clnt_mit"@, "kadm5srv_mit"@]
}

/// Directories searched for an MIT kadm5 shared library.
pub fn library_paths() -> (r: Vec<&'static str>)
    ensures
        r.deep_view() == spec_library_paths(),
{
    let mut r: Vec<&'static str> = Vec::new();
    r.push("/usr/local/lib");
    r.push("/usr/lib/x86_64-linux-gnu");
    r.push("/usr/lib64");
    r.push("/usr/lib");
    proof {
        assert(r.deep_view() =~= spec_library_paths());
    }
    r
}

/// MIT kadm5 library names tried inside each search directory.
pub fn libraries() -> (r: Vec<&'static str>)
    ensures
        r.deep_view() == spec_libraries(),
{
    let mut r: Vec<&'static str> = Vec::new();
    r.push("kadm5clnt_mit");
    r.push("kadm5srv_mit");
    proof {
        assert(r.deep_view() =~= spec_libraries());
    }
    r
}

} // verus!
