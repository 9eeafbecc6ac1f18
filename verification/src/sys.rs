//! The variant registry and the dispatch facade: the four supported native
//! libraries, their compile-time constants, the plan for finding each one on
//! disk, and the per-variant table of native symbols.

use vstd::prelude::*;
use vstd::string::StrSliceExecFns;
use vstd::string::StringExecFns;

use crate::error::Error;

pub mod heimdal;
pub mod mit;

verus! {

/// One of the four supported (implementation family, role) pairs.
///
/// The variant decides which shared-library name pattern, which native struct
/// layout and which error-code space every later operation uses.
#[derive(Copy, Clone, Debug, PartialEq, Eq, Hash, Structural)]
pub enum KAdm5Variant {
    /// MIT krb5, client-side RPC library
    MitClient,
    /// MIT krb5, server-side direct-database library
    MitServer,
    /// Heimdal, client-side RPC library
    HeimdalClient,
    /// Heimdal, server-side direct-database library
    HeimdalServer,
}

impl KAdm5Variant {
    /// The MIT/Heimdal axis: error-code interpretation, available operations
    /// and struct shapes diverge along this axis.
    pub open spec fn spec_is_mit(self) -> bool {
        self == KAdm5Variant::MitClient || self == KAdm5Variant::MitServer
    }

    /// The client/server axis: which session entry points are allowed.
    pub open spec fn spec_is_client(self) -> bool {
        self == KAdm5Variant::MitClient || self == KAdm5Variant::HeimdalClient
    }

    /// Whether this variant belongs to the MIT krb5 family.
    pub fn is_mit(&self) -> (r: bool)
        ensures
            r == self.spec_is_mit(),
    {
        matches!(self, KAdm5Variant::MitClient | KAdm5Variant::MitServer)
    }

    /// Whether this variant belongs to the Heimdal family.
    pub fn is_heimdal(&self) -> (r: bool)
        ensures
            r == !self.spec_is_mit(),
    {
        matches!(self, KAdm5Variant::HeimdalClient | KAdm5Variant::HeimdalServer)
    }

    /// Whether this variant is a client-side (remote RPC) library.
    pub fn is_client(&self) -> (r: bool)
        ensures
            r == self.spec_is_client(),
    {
        matches!(self, KAdm5Variant::MitClient | KAdm5Variant::HeimdalClient)
    }

    /// Whether this variant is a server-side (local database) library.
    pub fn is_server(&self) -> (r: bool)
        ensures
            r == !self.spec_is_client(),
    {
        matches!(self, KAdm5Variant::MitServer | KAdm5Variant::HeimdalServer)
    }

    /// The substring that distinguishes this variant's role in native library
    /// file names.
    pub open spec fn spec_role_marker(self) -> Seq<char> {
        if self.spec_is_client() {
            "clnt"@
        } else {
            "srv"@
        }
    }

    /// The conventional library file name tried when no search directory
    /// yields a match.
    pub open spec fn spec_fallback_library(self) -> Seq<char> {
        match self {
            KAdm5Variant::MitClient => "libkadm5clnt_mit.so"@,
            KAdm5Variant::MitServer => "libkadm5srv_mit.so"@,
            KAdm5Variant::HeimdalClient => "libkadm5clnt.so"@,
            KAdm5Variant::HeimdalServer => "libkadm5srv.so"@,
        }
    }
}

/// The service principal every admin session authenticates to; the same for
/// both native families.
pub const KADM5_ADMIN_SERVICE: &'static str = "kadmin/admin";

/// Whether `needle` occurs in `hay` starting at position `at`.
pub open spec fn spec_contains_at(hay: Seq<char>, at: int, needle: Seq<char>) -> bool {
    0 <= at && at + needle.len() <= hay.len() && hay.subrange(at, at + needle.len()) == needle
}

/// Whether `needle` occurs anywhere in `hay`.
pub open spec fn spec_contains_str(hay: Seq<char>, needle: Seq<char>) -> bool {
    exists|at: int| spec_contains_at(hay, at, needle)
}

/// Substring search, used to match role markers in library file names.
pub fn str_contains(hay: &str, needle: &str) -> (r: bool)
    ensures
        r == spec_contains_str(hay@, needle@),
{
    let hay_len = hay.unicode_len();
    let needle_len = needle.unicode_len();
    if needle_len > hay_len {
        assert(forall|at: int| !spec_contains_at(hay@, at, needle@));
        return false;
    }
    if needle_len == 0 {
        proof {
            assert(hay@.subrange(0, 0) =~= needle@);
            assert(spec_contains_at(hay@, 0, needle@));
        }
        return true;
    }
    let mut at: usize = 0;
    while at <= hay_len - needle_len
        invariant
            hay_len == hay@.len(),
            needle_len == needle@.len(),
            1 <= needle_len <= hay_len,
            0 <= at <= hay_len - needle_len + 1,
            forall|a: int| 0 <= a < at ==> !spec_contains_at(hay@, a, needle@),
        decreases hay_len - needle_len - at + 1,
    {
        let mut k: usize = 0;
        let mut mismatch = false;
        while k < needle_len
            invariant
                hay_len == hay@.len(),
                needle_len == needle@.len(),
                at + needle_len <= hay_len,
                0 <= k <= needle_len,
                !mismatch ==> forall|m: int| 0 <= m < k ==> hay@[at + m] == needle@[m],
                mismatch ==> !spec_contains_at(hay@, at as int, needle@),
            decreases needle_len - k,
        {
            if hay.get_char(at + k) != needle.get_char(k) {
                proof {
                    let a = at as int;
                    if spec_contains_at(hay@, a, needle@) {
                        assert(hay@.subrange(a, a + needle@.len())[k as int] == hay@[a + k]);
                    }
                }
                mismatch = true;
                k = needle_len;
            } else {
                k += 1;
            }
        }
        if !mismatch {
            proof {
                let a = at as int;
                assert(hay@.subrange(a, a + needle@.len()) =~= needle@);
                assert(spec_contains_at(hay@, a, needle@));
            }
            return true;
        }
        at += 1;
    }
    proof {
        assert(forall|a: int| at <= a ==> !spec_contains_at(hay@, a, needle@));
    }
    false
}

/// The file name of a shared library `lib` in directory `path`.
pub open spec fn spec_lib_file(path: Seq<char>, lib: Seq<char>) -> Seq<char> {
    path + "/lib"@ + lib + ".so"@
}

/// The candidate files in one directory: every library name carrying the
/// role marker, in order.
pub open spec fn spec_candidates_in_dir(
    path: Seq<char>,
    libs: Seq<Seq<char>>,
    marker: Seq<char>,
) -> Seq<Seq<char>>
    decreases libs.len(),
{
    if libs.len() == 0 {
        Seq::<Seq<char>>::empty()
    } else {
        spec_candidates_in_dir(path, libs.drop_last(), marker) + if spec_contains_str(
            libs.last(),
            marker,
        ) {
            seq![spec_lib_file(path, libs.last())]
        } else {
            Seq::<Seq<char>>::empty()
        }
    }
}

/// The candidate files over all search directories, in search order.
pub open spec fn spec_candidates(
    paths: Seq<Seq<char>>,
    libs: Seq<Seq<char>>,
    marker: Seq<char>,
) -> Seq<Seq<char>>
    decreases paths.len(),
{
    if paths.len() == 0 {
        Seq::<Seq<char>>::empty()
    } else {
        spec_candidates(paths.drop_last(), libs, marker) + spec_candidates_in_dir(
            paths.last(),
            libs,
            marker,
        )
    }
}

/// List, in order, the library files a directory search would try: for each
/// search directory, each library name that carries the role marker.
pub fn find_library_candidates(
    paths: &Vec<&'static str>,
    libraries: &Vec<&'static str>,
    marker: &str,
) -> (r: Vec<String>)
    ensures
        r.deep_view() == spec_candidates(paths.deep_view(), libraries.deep_view(), marker@),
{
    let mut r: Vec<String> = Vec::new();
    let mut i: usize = 0;
    proof {
        assert(r.deep_view() =~= spec_candidates(
            paths.deep_view().subrange(0, 0),
            libraries.deep_view(),
            marker@,
        ));
    }
    while i < paths.len()
        invariant
            0 <= i <= paths@.len(),
            paths.deep_view().len() == paths@.len(),
            r.deep_view() == spec_candidates(
                paths.deep_view().subrange(0, i as int),
                libraries.deep_view(),
                marker@,
            ),
        decreases paths@.len() - i,
    {
        let ghost r_entry = r.deep_view();
        let path = paths[i];
        let mut j: usize = 0;
        proof {
            assert(r.deep_view() =~= r_entry + spec_candidates_in_dir(
                path@,
                libraries.deep_view().subrange(0, 0),
                marker@,
            ));
        }
        while j < libraries.len()
            invariant
                0 <= j <= libraries@.len(),
                libraries.deep_view().len() == libraries@.len(),
                path@ == paths.deep_view()[i as int],
                r.deep_view() == r_entry + spec_candidates_in_dir(
                    path@,
                    libraries.deep_view().subrange(0, j as int),
                    marker@,
                ),
            decreases libraries@.len() - j,
        {
            let lib = libraries[j];
            let ghost libs_seen = libraries.deep_view().subrange(0, j as int);
            let ghost libs_next = libraries.deep_view().subrange(0, j + 1 as int);
            proof {
                assert(libs_next.drop_last() =~= libs_seen);
                assert(libs_next.last() == lib@);
            }
            if str_contains(lib, marker) {
                let mut full = String::from_str(path);
                full.append("/lib");
                full.append(lib);
                full.append(".so");
                proof {
                    assert(full@ =~= spec_lib_file(path@, lib@));
                }
                let ghost prev = r.deep_view();
                let ghost prev_vec = r@;
                let ghost full_view = full@;
                r.push(full);
                proof {
                    assert forall|m: int| 0 <= m < prev.len() implies r.deep_view()[m] == prev[m] by {
                        assert(r@[m] == prev_vec[m]);
                    }
                    assert(r.deep_view()[prev.len() as int] == full_view);
                    assert(r.deep_view() =~= prev.push(full_view));
                    assert(spec_candidates_in_dir(path@, libs_next, marker@) =~= spec_candidates_in_dir(
                        path@,
                        libs_seen,
                        marker@,
                    ).push(spec_lib_file(path@, lib@)));
                    assert(r.deep_view() =~= r_entry + spec_candidates_in_dir(
                        path@,
                        libs_next,
                        marker@,
                    ));
                }
            } else {
                proof {
                    assert(r.deep_view() =~~= r_entry + spec_candidates_in_dir(
                        path@,
                        libs_next,
                        marker@,
                    ));
                }
            }
            j += 1;
        }
        proof {
            let paths_next = paths.deep_view().subrange(0, i + 1 as int);
            assert(paths_next.drop_last() =~= paths.deep_view().subrange(0, i as int));
            assert(libraries.deep_view().subrange(0, libraries@.len() as int) =~= libraries
                .deep_view());
            assert(r.deep_view() =~= spec_candidates(paths_next, libraries.deep_view(), marker@));
        }
        i += 1;
    }
    proof {
        assert(paths.deep_view().subrange(0, paths@.len() as int) =~= paths.deep_view());
    }
    r
}

/// A native kadm5 library bound for one variant.
///
/// The loaded image itself lives outside this crate; here it is an opaque
/// nonzero token paired with the variant the symbols were bound for. The
/// token ties every context and session back to the image whose function
/// pointers must outlive them.
#[derive(Debug)]
pub struct Library {
    variant: KAdm5Variant,
    image: u64,
}

impl Library {
    /// The variant this library was bound for, as seen by specifications.
    pub closed spec fn spec_variant(&self) -> KAdm5Variant {
        self.variant
    }

    /// The image token, as seen by specifications.
    pub closed spec fn spec_image(&self) -> u64 {
        self.image
    }

    /// Record a successfully loaded and bound native library.
    pub fn bind(variant: KAdm5Variant, image: u64) -> (r: Library)
        ensures
            r.spec_variant() == variant,
            r.spec_image() == image,
    {
        Library { variant, image }
    }

    /// The variant this library was bound for.
    pub fn variant(&self) -> (r: KAdm5Variant)
        ensures
            r == self.spec_variant(),
    {
        self.variant
    }

    /// The opaque token of the loaded image.
    pub fn image(&self) -> (r: u64)
        ensures
            r == self.spec_image(),
    {
        self.image
    }

    /// Check if this [`Library`] is for MIT krb5.
    pub fn is_mit(&self) -> (r: bool)
        ensures
            r == self.spec_variant().spec_is_mit(),
    {
        self.variant.is_mit()
    }

    /// Check if this [`Library`] is for Heimdal.
    pub fn is_heimdal(&self) -> (r: bool)
        ensures
            r == !self.spec_variant().spec_is_mit(),
    {
        self.variant.is_heimdal()
    }

    /// The library files to try for `variant`, in order: every match of the
    /// directory search first, then the conventional fallback name resolved
    /// through the loader's own search path.
    pub fn load_candidates(variant: KAdm5Variant) -> (r: Vec<String>)
        ensures
            r.deep_view() == Self::spec_load_candidates(variant),
    {
        let (paths, libs) = if variant.is_mit() {
            (mit::library_paths(), mit::libraries())
        } else {
            (heimdal::library_paths(), heimdal::libraries())
        };
        let marker = if variant.is_client() {
            "clnt"
        } else {
            "srv"
        };
        let mut r = find_library_candidates(&paths, &libs, marker);
        let fallback = match variant {
            KAdm5Variant::MitClient => "libkadm5clnt_mit.so",
            KAdm5Variant::MitServer => "libkadm5srv_mit.so",
            KAdm5Variant::HeimdalClient => "libkadm5clnt.so",
            KAdm5Variant::HeimdalServer => "libkadm5srv.so",
        };
        r.push(String::from_str(fallback));
        proof {
            assert(r.deep_view() =~= Self::spec_load_candidates(variant));
        }
        r
    }

    /// The search order `load_candidates` promises.
    pub open spec fn spec_load_candidates(variant: KAdm5Variant) -> Seq<Seq<char>> {
        let paths = if variant.spec_is_mit() {
            mit::spec_library_paths()
        } else {
            heimdal::spec_library_paths()
        };
        let libs = if variant.spec_is_mit() {
            mit::spec_libraries()
        } else {
            heimdal::spec_libraries()
        };
        spec_candidates(paths, libs, variant.spec_role_marker()).push(
            variant.spec_fallback_library(),
        )
    }
}

/// A symbolic operation of the native symbol contract.
///
/// Every native function the library ever calls is one of these; the
/// dispatch facade maps each to the correct symbol for the live variant
/// exactly once, so no other component re-derives variant-specific names.
#[derive(Copy, Clone, Debug, PartialEq, Eq, Hash, Structural)]
pub enum KAdminOp {
    /// Create a krb5 context suitable for kadm5 use
    ContextInit,
    /// Release a krb5 context
    ContextFree,
    /// Fetch the message for a krb5 error code
    GetErrorMessage,
    /// Release a fetched error message
    FreeErrorMessage,
    /// Fetch the default realm of a context
    GetDefaultRealm,
    /// Release a fetched default realm
    FreeDefaultRealm,
    /// Parse a textual principal name
    ParseName,
    /// Render a parsed principal back to text
    UnparseName,
    /// Release a rendered principal name
    FreeUnparsedName,
    /// Release a parsed principal
    FreePrincipal,
    /// Derive a service principal for the local host
    SnameToPrincipal,
    /// Open the default credentials cache
    CcDefault,
    /// Open a credentials cache by name
    CcResolve,
    /// Read the default principal of a credentials cache
    CcGetPrincipal,
    /// Close a credentials cache
    CcClose,
    /// Open an admin session with a password
    InitWithPassword,
    /// Open an admin session with a keytab
    InitWithSkey,
    /// Open an admin session with a credentials cache
    InitWithCreds,
    /// Create a principal
    CreatePrincipal,
    /// Create a principal with explicit keysalts
    CreatePrincipal3,
    /// Modify a principal
    ModifyPrincipal,
    /// Rename a principal
    RenamePrincipal,
    /// Delete a principal
    DeletePrincipal,
    /// Fetch a principal entry
    GetPrincipal,
    /// Release a fetched principal entry
    FreePrincipalEnt,
    /// Change a principal's password
    ChpassPrincipal,
    /// Change a principal's password with explicit keysalts
    ChpassPrincipal3,
    /// Randomize a principal's key
    RandkeyPrincipal,
    /// Randomize a principal's key with explicit keysalts
    RandkeyPrincipal3,
    /// Fetch the string attributes of a principal (MIT extension)
    GetStrings,
    /// Release fetched string attributes (MIT extension)
    FreeStrings,
    /// Set a string attribute on a principal (MIT extension)
    SetString,
    /// List principal names by glob expression
    GetPrincipals,
    /// Release a fetched name list
    FreeNameList,
    /// Create a policy (MIT only)
    CreatePolicy,
    /// Modify a policy (MIT only)
    ModifyPolicy,
    /// Delete a policy (MIT only)
    DeletePolicy,
    /// Fetch a policy entry (MIT only)
    GetPolicy,
    /// Release a fetched policy entry (MIT only)
    FreePolicyEnt,
    /// List policy names by glob expression
    GetPolicies,
    /// Read the privileges of the session
    GetPrivs,
    /// Flush pending changes
    Flush,
    /// Tear an admin session down
    Destroy,
}

/// The native symbol the live variant binds for `op`, or `None` when the
/// variant's library does not offer the operation.
pub open spec fn spec_op_symbol(variant: KAdm5Variant, op: KAdminOp) -> Option<Seq<char>> {
    let is_mit = variant.spec_is_mit();
    match op {
        KAdminOp::ContextInit => if is_mit {
            Some("kadm5_init_krb5_context"@)
        } else {
            Some("krb5_init_context"@)
        },
        KAdminOp::ContextFree => Some("krb5_free_context"@),
        KAdminOp::GetErrorMessage => Some("krb5_get_error_message"@),
        KAdminOp::FreeErrorMessage => Some("krb5_free_error_message"@),
        KAdminOp::GetDefaultRealm => Some("krb5_get_default_realm"@),
        KAdminOp::FreeDefaultRealm => Some("krb5_free_default_realm"@),
        KAdminOp::ParseName => Some("krb5_parse_name"@),
        KAdminOp::UnparseName => Some("krb5_unparse_name"@),
        KAdminOp::FreeUnparsedName => Some("krb5_free_unparsed_name"@),
        KAdminOp::FreePrincipal => Some("krb5_free_principal"@),
        KAdminOp::SnameToPrincipal => Some("krb5_sname_to_principal"@),
        KAdminOp::CcDefault => Some("krb5_cc_default"@),
        KAdminOp::CcResolve => Some("krb5_cc_resolve"@),
        KAdminOp::CcGetPrincipal => Some("krb5_cc_get_principal"@),
        KAdminOp::CcClose => Some("krb5_cc_close"@),
        KAdminOp::InitWithPassword => if is_mit {
            Some("kadm5_init_with_password"@)
        } else {
            Some("kadm5_init_with_password_ctx"@)
        },
        KAdminOp::InitWithSkey => if is_mit {
            Some("kadm5_init_with_skey"@)
        } else {
            Some("kadm5_init_with_skey_ctx"@)
        },
        KAdminOp::InitWithCreds => if is_mit {
            Some("kadm5_init_with_creds"@)
        } else {
            Some("kadm5_init_with_creds_ctx"@)
        },
        KAdminOp::CreatePrincipal => Some("kadm5_create_principal"@),
        KAdminOp::CreatePrincipal3 => Some("kadm5_create_principal_3"@),
        KAdminOp::ModifyPrincipal => Some("kadm5_modify_principal"@),
        KAdminOp::RenamePrincipal => Some("kadm5_rename_principal"@),
        KAdminOp::DeletePrincipal => Some("kadm5_delete_principal"@),
        KAdminOp::GetPrincipal => Some("kadm5_get_principal"@),
        KAdminOp::FreePrincipalEnt => Some("kadm5_free_principal_ent"@),
        KAdminOp::ChpassPrincipal => Some("kadm5_chpass_principal"@),
        KAdminOp::ChpassPrincipal3 => Some("kadm5_chpass_principal_3"@),
        KAdminOp::RandkeyPrincipal => Some("kadm5_randkey_principal"@),
        KAdminOp::RandkeyPrincipal3 => Some("kadm5_randkey_principal_3"@),
        KAdminOp::GetStrings => if is_mit {
            Some("kadm5_get_strings"@)
        } else {
            None
        },
        KAdminOp::FreeStrings => if is_mit {
            Some("kadm5_free_strings"@)
        } else {
            None
        },
        KAdminOp::SetString => if is_mit {
            Some("kadm5_set_string"@)
        } else {
            None
        },
        KAdminOp::GetPrincipals => Some("kadm5_get_principals"@),
        KAdminOp::FreeNameList => Some("kadm5_free_name_list"@),
        KAdminOp::CreatePolicy => if is_mit {
            Some("kadm5_create_policy"@)
        } else {
            None
        },
        KAdminOp::ModifyPolicy => if is_mit {
            Some("kadm5_modify_policy"@)
        } else {
            None
        },
        KAdminOp::DeletePolicy => if is_mit {
            Some("kadm5_delete_policy"@)
        } else {
            None
        },
        KAdminOp::GetPolicy => if is_mit {
            Some("kadm5_get_policy"@)
        } else {
            None
        },
        KAdminOp::FreePolicyEnt => if is_mit {
            Some("kadm5_free_policy_ent"@)
        } else {
            None
        },
        KAdminOp::GetPolicies => if is_mit || !variant.spec_is_client() {
            Some("kadm5_get_policies"@)
        } else {
            None
        },
        KAdminOp::GetPrivs => Some("kadm5_get_privs"@),
        KAdminOp::Flush => Some("kadm5_flush"@),
        KAdminOp::Destroy => Some("kadm5_destroy"@),
    }
}

/// Whether the live variant's library offers the operation at all.
pub open spec fn spec_op_supported(variant: KAdm5Variant, op: KAdminOp) -> bool {
    spec_op_symbol(variant, op) is Some
}

/// The dispatch chokepoint: yield the native symbol the live variant binds
/// for `op`, or a library-mismatch error when that variant's library does
/// not offer the operation — the call is then never attempted.
pub fn symbol_name(variant: KAdm5Variant, op: KAdminOp) -> (r: Result<&'static str, Error>)
    ensures
        match r {
            Ok(s) => spec_op_symbol(variant, op) == Some(s@),
            Err(e) => spec_op_symbol(variant, op) is None && e matches Error::LibraryMismatch(_),
        },
{
    let is_mit = variant.is_mit();
    match op {
        KAdminOp::ContextInit => if is_mit {
            Ok("kadm5_init_krb5_context")
        } else {
            Ok("krb5_init_context")
        },
        KAdminOp::ContextFree => Ok("krb5_free_context"),
        KAdminOp::GetErrorMessage => Ok("krb5_get_error_message"),
        KAdminOp::FreeErrorMessage => Ok("krb5_free_error_message"),
        KAdminOp::GetDefaultRealm => Ok("krb5_get_default_realm"),
        KAdminOp::FreeDefaultRealm => Ok("krb5_free_default_realm"),
        KAdminOp::ParseName => Ok("krb5_parse_name"),
        KAdminOp::UnparseName => Ok("krb5_unparse_name"),
        KAdminOp::FreeUnparsedName => Ok("krb5_free_unparsed_name"),
        KAdminOp::FreePrincipal => Ok("krb5_free_principal"),
        KAdminOp::SnameToPrincipal => Ok("krb5_sname_to_principal"),
        KAdminOp::CcDefault => Ok("krb5_cc_default"),
        KAdminOp::CcResolve => Ok("krb5_cc_resolve"),
        KAdminOp::CcGetPrincipal => Ok("krb5_cc_get_principal"),
        KAdminOp::CcClose => Ok("krb5_cc_close"),
        KAdminOp::InitWithPassword => if is_mit {
            Ok("kadm5_init_with_password")
        } else {
            Ok("kadm5_init_with_password_ctx")
        },
        KAdminOp::InitWithSkey => if is_mit {
            Ok("kadm5_init_with_skey")
        } else {
            Ok("kadm5_init_with_skey_ctx")
        },
        KAdminOp::InitWithCreds => if is_mit {
            Ok("kadm5_init_with_creds")
        } else {
            Ok("kadm5_init_with_creds_ctx")
        },
        KAdminOp::CreatePrincipal => Ok("kadm5_create_principal"),
        KAdminOp::CreatePrincipal3 => Ok("kadm5_create_principal_3"),
        KAdminOp::ModifyPrincipal => Ok("kadm5_modify_principal"),
        KAdminOp::RenamePrincipal => Ok("kadm5_rename_principal"),
        KAdminOp::DeletePrincipal => Ok("kadm5_delete_principal"),
        KAdminOp::GetPrincipal => Ok("kadm5_get_principal"),
        KAdminOp::FreePrincipalEnt => Ok("kadm5_free_principal_ent"),
        KAdminOp::ChpassPrincipal => Ok("kadm5_chpass_principal"),
        KAdminOp::ChpassPrincipal3 => Ok("kadm5_chpass_principal_3"),
        KAdminOp::RandkeyPrincipal => Ok("kadm5_randkey_principal"),
        KAdminOp::RandkeyPrincipal3 => Ok("kadm5_randkey_principal_3"),
        KAdminOp::GetStrings => if is_mit {
            Ok("kadm5_get_strings")
        } else {
            Err(Error::LibraryMismatch("Principal strings are only available on MIT libraries."))
        },
        KAdminOp::FreeStrings => if is_mit {
            Ok("kadm5_free_strings")
        } else {
            Err(Error::LibraryMismatch("Principal strings are only available on MIT libraries."))
        },
        KAdminOp::SetString => if is_mit {
            Ok("kadm5_set_string")
        } else {
            Err(Error::LibraryMismatch("Principal strings are only available on MIT libraries."))
        },
        KAdminOp::GetPrincipals => Ok("kadm5_get_principals"),
        KAdminOp::FreeNameList => Ok("kadm5_free_name_list"),
        KAdminOp::CreatePolicy => if is_mit {
            Ok("kadm5_create_policy")
        } else {
            Err(Error::LibraryMismatch("Policy operations are only available for MIT kadm5"))
        },
        KAdminOp::ModifyPolicy => if is_mit {
            Ok("kadm5_modify_policy")
        } else {
            Err(Error::LibraryMismatch("Policy operations are only available for MIT kadm5"))
        },
        KAdminOp::DeletePolicy => if is_mit {
            Ok("kadm5_delete_policy")
        } else {
            Err(Error::LibraryMismatch("Policy operations are only available for MIT kadm5"))
        },
        KAdminOp::GetPolicy => if is_mit {
            Ok("kadm5_get_policy")
        } else {
            Err(Error::LibraryMismatch("Policy operations are only available for MIT kadm5"))
        },
        KAdminOp::FreePolicyEnt => if is_mit {
            Ok("kadm5_free_policy_ent")
        } else {
            Err(Error::LibraryMismatch("Policy operations are only available for MIT kadm5"))
        },
        KAdminOp::GetPolicies => if is_mit {
            Ok("kadm5_get_policies")
        } else if variant.is_server() {
            Ok("kadm5_get_policies")
        } else {
            Err(
                Error::LibraryMismatch(
                    "Policy listing is only available on MIT and Heimdal server-side libraries.",
                ),
            )
        },
        KAdminOp::GetPrivs => Ok("kadm5_get_privs"),
        KAdminOp::Flush => Ok("kadm5_flush"),
        KAdminOp::Destroy => Ok("kadm5_destroy"),
    }
}

/// Every symbolic operation, in a fixed order.
pub open spec fn spec_all_ops() -> Seq<KAdminOp> {
    seq![
        KAdminOp::ContextInit,
        KAdminOp::ContextFree,
        KAdminOp::GetErrorMessage,
        KAdminOp::FreeErrorMessage,
        KAdminOp::GetDefaultRealm,
        KAdminOp::FreeDefaultRealm,
        KAdminOp::ParseName,
        KAdminOp::UnparseName,
        KAdminOp::FreeUnparsedName,
        KAdminOp::FreePrincipal,
        KAdminOp::SnameToPrincipal,
        KAdminOp::CcDefault,
        KAdminOp::CcResolve,
        KAdminOp::CcGetPrincipal,
        KAdminOp::CcClose,
        KAdminOp::InitWithPassword,
        KAdminOp::InitWithSkey,
        KAdminOp::InitWithCreds,
        KAdminOp::CreatePrincipal,
        KAdminOp::CreatePrincipal3,
        KAdminOp::ModifyPrincipal,
        KAdminOp::RenamePrincipal,
        KAdminOp::DeletePrincipal,
        KAdminOp::GetPrincipal,
        KAdminOp::FreePrincipalEnt,
        KAdminOp::ChpassPrincipal,
        KAdminOp::ChpassPrincipal3,
        KAdminOp::RandkeyPrincipal,
        KAdminOp::RandkeyPrincipal3,
        KAdminOp::GetStrings,
        KAdminOp::FreeStrings,
        KAdminOp::SetString,
        KAdminOp::GetPrincipals,
        KAdminOp::FreeNameList,
        KAdminOp::CreatePolicy,
        KAdminOp::ModifyPolicy,
        KAdminOp::DeletePolicy,
        KAdminOp::GetPolicy,
        KAdminOp::FreePolicyEnt,
        KAdminOp::GetPolicies,
        KAdminOp::GetPrivs,
        KAdminOp::Flush,
        KAdminOp::Destroy,
    ]
}

/// Every symbolic operation, in the fixed order of `spec_all_ops`.
fn all_ops() -> (r: Vec<KAdminOp>)
    ensures
        r@ == spec_all_ops(),
{
    let mut r: Vec<KAdminOp> = Vec::new();
    r.push(KAdminOp::ContextInit);
    r.push(KAdminOp::ContextFree);
    r.push(KAdminOp::GetErrorMessage);
    r.push(KAdminOp::FreeErrorMessage);
    r.push(KAdminOp::GetDefaultRealm);
    r.push(KAdminOp::FreeDefaultRealm);
    r.push(KAdminOp::ParseName);
    r.push(KAdminOp::UnparseName);
    r.push(KAdminOp::FreeUnparsedName);
    r.push(KAdminOp::FreePrincipal);
    r.push(KAdminOp::SnameToPrincipal);
    r.push(KAdminOp::CcDefault);
    r.push(KAdminOp::CcResolve);
    r.push(KAdminOp::CcGetPrincipal);
    r.push(KAdminOp::CcClose);
    r.push(KAdminOp::InitWithPassword);
    r.push(KAdminOp::InitWithSkey);
    r.push(KAdminOp::InitWithCreds);
    r.push(KAdminOp::CreatePrincipal);
    r.push(KAdminOp::CreatePrincipal3);
    r.push(KAdminOp::ModifyPrincipal);
    r.push(KAdminOp::RenamePrincipal);
    r.push(KAdminOp::DeletePrincipal);
    r.push(KAdminOp::GetPrincipal);
    r.push(KAdminOp::FreePrincipalEnt);
    r.push(KAdminOp::ChpassPrincipal);
    r.push(KAdminOp::ChpassPrincipal3);
    r.push(KAdminOp::RandkeyPrincipal);
    r.push(KAdminOp::RandkeyPrincipal3);
    r.push(KAdminOp::GetStrings);
    r.push(KAdminOp::FreeStrings);
    r.push(KAdminOp::SetString);
    r.push(KAdminOp::GetPrincipals);
    r.push(KAdminOp::FreeNameList);
    r.push(KAdminOp::CreatePolicy);
    r.push(KAdminOp::ModifyPolicy);
    r.push(KAdminOp::DeletePolicy);
    r.push(KAdminOp::GetPolicy);
    r.push(KAdminOp::FreePolicyEnt);
    r.push(KAdminOp::GetPolicies);
    r.push(KAdminOp::GetPrivs);
    r.push(KAdminOp::Flush);
    r.push(KAdminOp::Destroy);
    proof {
        assert(r@ =~= spec_all_ops());
    }
    r
}

/// The operations a loader must bind for `variant`, in a fixed order.
///
/// Every operation the variant's library offers is in the list, so binding
/// exactly this set makes a missing required symbol a hard load failure.
pub open spec fn spec_required_ops(variant: KAdm5Variant) -> Seq<KAdminOp> {
    spec_all_ops().filter(|op: KAdminOp| spec_op_supported(variant, op))
}

/// List the operations a loader must bind for `variant`.
pub fn required_ops(variant: KAdm5Variant) -> (r: Vec<KAdminOp>)
    ensures
        r@ == spec_required_ops(variant),
{
    let ops = all_ops();
    let ghost pred = |op: KAdminOp| spec_op_supported(variant, op);
    let mut r: Vec<KAdminOp> = Vec::new();
    let mut i: usize = 0;
    proof {
        reveal_with_fuel(Seq::<KAdminOp>::filter, 2);
        assert(r@ =~= spec_all_ops().subrange(0, 0).filter(pred));
    }
    while i < ops.len()
        invariant
            ops@ == spec_all_ops(),
            0 <= i <= ops@.len(),
            pred == (|op: KAdminOp| spec_op_supported(variant, op)),
            r@ == spec_all_ops().subrange(0, i as int).filter(pred),
        decreases ops@.len() - i,
    {
        let op = ops[i];
        let ghost seen = spec_all_ops().subrange(0, i as int);
        let ghost next = spec_all_ops().subrange(0, i + 1 as int);
        proof {
            assert(next.drop_last() =~= seen);
            assert(next.last() == op);
        }
        let sym = symbol_name(variant, op);
        proof {
            reveal_with_fuel(Seq::<_>::filter, 3);
            assert(next =~= seen + seq![op]);
            Seq::<KAdminOp>::filter_distributes_over_add(seen, seq![op], pred);
            assert(next.filter(pred) == seen.filter(pred) + seq![op].filter(pred));
            assert(seq![op].drop_last() =~= Seq::<KAdminOp>::empty());
            assert(seq![op].filter(pred) == if pred(op) { seq![op] } else { Seq::<KAdminOp>::empty() });
        }
        if sym.is_ok() {
            proof {
                assert(pred(op));
            }
            r.push(op);
            proof {
                assert(r@ =~= next.filter(pred));
            }
        } else {
            proof {
                assert(!pred(op));
                assert(r@ =~= next.filter(pred));
            }
        }
        i += 1;
    }
    proof {
        assert(spec_all_ops().subrange(0, spec_all_ops().len() as int) =~= spec_all_ops());
    }
    r
}

/// Law: the required-operation list for a variant is sound and complete —
/// it holds exactly the operations that variant's library offers.
pub proof fn lemma_required_ops_exact(variant: KAdm5Variant)
    ensures
        forall|i: int|
            0 <= i < spec_required_ops(variant).len() ==> spec_op_supported(
                variant,
                #[trigger] spec_required_ops(variant)[i],
            ),
        forall|op: KAdminOp|
            #[trigger] spec_op_supported(variant, op) ==> spec_required_ops(variant).contains(op),
{
    let pred = |op: KAdminOp| spec_op_supported(variant, op);
    let all = spec_all_ops();
    assert forall|i: int|
        0 <= i < spec_required_ops(variant).len() implies spec_op_supported(
        variant,
        #[trigger] spec_required_ops(variant)[i],
    ) by {
        all.lemma_filter_pred(pred, i);
    }
    assert forall|op: KAdminOp| #[trigger]
        spec_op_supported(variant, op) implies spec_required_ops(variant).contains(op) by {
        let i: int = match op {
            KAdminOp::ContextInit => 0,
            KAdminOp::ContextFree => 1,
            KAdminOp::GetErrorMessage => 2,
            KAdminOp::FreeErrorMessage => 3,
            KAdminOp::GetDefaultRealm => 4,
            KAdminOp::FreeDefaultRealm => 5,
            KAdminOp::ParseName => 6,
            KAdminOp::UnparseName => 7,
            KAdminOp::FreeUnparsedName => 8,
            KAdminOp::FreePrincipal => 9,
            KAdminOp::SnameToPrincipal => 10,
            KAdminOp::CcDefault => 11,
            KAdminOp::CcResolve => 12,
            KAdminOp::CcGetPrincipal => 13,
            KAdminOp::CcClose => 14,
            KAdminOp::InitWithPassword => 15,
            KAdminOp::InitWithSkey => 16,
            KAdminOp::InitWithCreds => 17,
            KAdminOp::CreatePrincipal => 18,
            KAdminOp::CreatePrincipal3 => 19,
            KAdminOp::ModifyPrincipal => 20,
            KAdminOp::RenamePrincipal => 21,
            KAdminOp::DeletePrincipal => 22,
            KAdminOp::GetPrincipal => 23,
            KAdminOp::FreePrincipalEnt => 24,
            KAdminOp::ChpassPrincipal => 25,
            KAdminOp::ChpassPrincipal3 => 26,
            KAdminOp::RandkeyPrincipal => 27,
            KAdminOp::RandkeyPrincipal3 => 28,
            KAdminOp::GetStrings => 29,
            KAdminOp::FreeStrings => 30,
            KAdminOp::SetString => 31,
            KAdminOp::GetPrincipals => 32,
            KAdminOp::FreeNameList => 33,
            KAdminOp::CreatePolicy => 34,
            KAdminOp::ModifyPolicy => 35,
            KAdminOp::DeletePolicy => 36,
            KAdminOp::GetPolicy => 37,
            KAdminOp::FreePolicyEnt => 38,
            KAdminOp::GetPolicies => 39,
            KAdminOp::GetPrivs => 40,
            KAdminOp::Flush => 41,
            KAdminOp::Destroy => 42,
        };
        assert(all[i] == op);
        all.lemma_filter_contains(pred, i);
    }
}

} // verus!
