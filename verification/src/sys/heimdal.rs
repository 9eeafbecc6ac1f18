//! Constants and search locations for the Heimdal family.

use vstd::prelude::*;

verus! {

/// kadm5 API version 2 as encoded by the Heimdal headers (the highest
/// version Heimdal supports).
pub const KADM5_API_VERSION_2: u32 = 0x12345702;

/// kadm5 structure version expected by the Heimdal entry points.
pub const KADM5_STRUCT_VERSION: u32 = 0x12345601;

/// Principal-name type used when deriving a default `host/...` client name.
pub const NAME_TYPE_KRB5_NT_SRV_HST: i32 = 3;

/// Config-parameter mask bit: the realm field is set.
pub const KADM5_CONFIG_REALM: i64 = 0x00000001;

/// Config-parameter mask bit: the kadmind port field is set.
pub const KADM5_CONFIG_KADMIND_PORT: i64 = 0x00000004;

/// Config-parameter mask bit: the admin server field is set.
pub const KADM5_CONFIG_ADMIN_SERVER: i64 = 0x00000008;

/// Config-parameter mask bit: the database name field is set.
pub const KADM5_CONFIG_DBNAME: i64 = 0x00000010;

/// Config-parameter mask bit: the ACL file field is set.
pub const KADM5_CONFIG_ACL_FILE: i64 = 0x00000040;

/// Config-parameter mask bit: the stash file field is set.
pub const KADM5_CONFIG_STASH_FILE: i64 = 0x00000200;

/// The directories searched for a Heimdal kadm5 shared library, in order.
pub open spec fn spec_library_paths() -> Seq<Seq<char>> {
    seq![
        "/usr/local/lib"@,
        "/usr/lib/x86_64-linux-gnu/heimdal"@,
        "/usr/lib64/heimdal"@,
        "/usr/lib"@,
    ]
}

/// The Heimdal kadm5 library names tried inside each search directory.
pub open spec fn spec_libraries() -> Seq<Seq<char>> {
    seq!["kadm5clnt"@, "kadm5srv"@]
}

/// Directories searched for a Heimdal kadm5 shared library.
pub fn library_paths() -> (r: Vec<&'static str>)
    ensures
        r.deep_view() == spec_library_paths(),
{
    let mut r: Vec<&'static str> = Vec::new();
    r.push("/usr/local/lib");
    r.push("/usr/lib/x86_64-linux-gnu/heimdal");
    r.push("/usr/lib64/heimdal");
    r.push("/usr/lib");
    proof {
        assert(r.deep_view() =~= spec_library_paths());
    }
    r
}

/// Heimdal kadm5 library names tried inside each search directory.
pub fn libraries() -> (r: Vec<&'static str>)
    ensures
        r.deep_view() == spec_libraries(),
{
    let mut r: Vec<&'static str> = Vec::new();
    r.push("kadm5clnt");
    r.push("kadm5srv");
    proof {
        assert(r.deep_view() =~= spec_libraries());
    }
    r
}

} // verus!
