//! kadm5 config parameters and the guard that carries them to the native
//! boundary.
//!
//! Each setter records its value and flags the matching mask bit in the same
//! step, for both families at once, so a set field can never be missing its
//! bit. The build step validates every present string and bundles the
//! validated backing strings with the mask into one value, so the native
//! struct can never be separated from the buffers its pointers live in.

use vstd::prelude::*;

use crate::conv::contains_nul;
use crate::conv::spec_contains_nul;
use crate::error::Error;
use crate::sys::heimdal;
use crate::sys::mit;

verus! {

/// The abstract state of a [`Params`] value.
pub struct ParamsView {
    /// MIT-family mask of set fields
    pub mask_mit: i64,
    /// Heimdal-family mask of set fields
    pub mask_heimdal: i64,
    /// Default database realm
    pub realm: Option<Seq<char>>,
    /// kadmind port to connect to
    pub kadmind_port: i32,
    /// kpasswd port to connect to (MIT only)
    pub kpasswd_port: i32,
    /// Admin server to contact
    pub admin_server: Option<Seq<char>>,
    /// Name of the KDC database
    pub dbname: Option<Seq<char>>,
    /// Location of the access control list file (MIT only)
    pub acl_file: Option<Seq<char>>,
    /// Location of the password dictionary file (MIT only)
    pub dict_file: Option<Seq<char>>,
    /// Location of the master key stash file
    pub stash_file: Option<Seq<char>>,
}

/// The view of an optional owned string.
pub open spec fn spec_opt_str(s: Option<String>) -> Option<Seq<char>> {
    match s {
        None => None,
        Some(v) => Some(v@),
    }
}

/// kadm5 config options.
///
/// Every setter both records the value and flags the field's mask bit for
/// both native families, so the mask can never fall out of step with the
/// fields.
#[derive(Clone, Debug)]
pub struct Params {
    mask_mit: i64,
    mask_heimdal: i64,
    realm: Option<String>,
    kadmind_port: i32,
    kpasswd_port: i32,
    admin_server: Option<String>,
    dbname: Option<String>,
    acl_file: Option<String>,
    dict_file: Option<String>,
    stash_file: Option<String>,
}

impl View for Params {
    type V = ParamsView;

    closed spec fn view(&self) -> ParamsView {
        ParamsView {
            mask_mit: self.mask_mit,
            mask_heimdal: self.mask_heimdal,
            realm: spec_opt_str(self.realm),
            kadmind_port: self.kadmind_port,
            kpasswd_port: self.kpasswd_port,
            admin_server: spec_opt_str(self.admin_server),
            dbname: spec_opt_str(self.dbname),
            acl_file: spec_opt_str(self.acl_file),
            dict_file: spec_opt_str(self.dict_file),
            stash_file: spec_opt_str(self.stash_file),
        }
    }
}

/// Fresh parameters: no field set, both masks zero.
pub open spec fn spec_params_new() -> ParamsView {
    ParamsView {
        mask_mit: 0,
        mask_heimdal: 0,
        realm: None,
        kadmind_port: 0,
        kpasswd_port: 0,
        admin_server: None,
        dbname: None,
        acl_file: None,
        dict_file: None,
        stash_file: None,
    }
}

impl Params {
    /// The MIT-family mask of set fields.
    pub fn mask_mit(&self) -> (r: i64)
        ensures
            r == self@.mask_mit,
    {
        self.mask_mit
    }

    /// The Heimdal-family mask of set fields.
    pub fn mask_heimdal(&self) -> (r: i64)
        ensures
            r == self@.mask_heimdal,
    {
        self.mask_heimdal
    }

    /// Create a new [`Params`] instance with nothing set.
    pub fn new() -> (r: Self)
        ensures
            r@ == spec_params_new(),
    {
        Params {
            mask_mit: 0,
            mask_heimdal: 0,
            realm: None,
            kadmind_port: 0,
            kpasswd_port: 0,
            admin_server: None,
            dbname: None,
            acl_file: None,
            dict_file: None,
            stash_file: None,
        }
    }

    /// Set the default database realm.
    pub fn realm(self, realm: &str) -> (r: Self)
        ensures
            r@ == (ParamsView {
                realm: Some(realm@),
                mask_mit: self@.mask_mit | mit::KADM5_CONFIG_REALM,
                mask_heimdal: self@.mask_heimdal | heimdal::KADM5_CONFIG_REALM,
                ..self@
            }),
    {
        Params {
            realm: Some(realm.to_owned()),
            mask_mit: self.mask_mit | mit::KADM5_CONFIG_REALM,
            mask_heimdal: self.mask_heimdal | heimdal::KADM5_CONFIG_REALM,
            ..self
        }
    }

    /// Set the kadmind port to connect to.
    pub fn kadmind_port(self, port: i32) -> (r: Self)
        ensures
            r@ == (ParamsView {
                kadmind_port: port,
                mask_mit: self@.mask_mit | mit::KADM5_CONFIG_KADMIND_PORT,
                mask_heimdal: self@.mask_heimdal | heimdal::KADM5_CONFIG_KADMIND_PORT,
                ..self@
            }),
    {
        Params {
            kadmind_port: port,
            mask_mit: self.mask_mit | mit::KADM5_CONFIG_KADMIND_PORT,
            mask_heimdal: self.mask_heimdal | heimdal::KADM5_CONFIG_KADMIND_PORT,
            ..self
        }
    }

    /// Set the kpasswd port to connect to.
    ///
    /// Only meaningful for the MIT family; Heimdal has no such field, so only
    /// the MIT mask is touched.
    pub fn kpasswd_port(self, port: i32) -> (r: Self)
        ensures
            r@ == (ParamsView {
                kpasswd_port: port,
                mask_mit: self@.mask_mit | mit::KADM5_CONFIG_KPASSWD_PORT,
                ..self@
            }),
    {
        Params {
            kpasswd_port: port,
            mask_mit: self.mask_mit | mit::KADM5_CONFIG_KPASSWD_PORT,
            ..self
        }
    }

    /// Set the admin server which kadmin should contact.
    pub fn admin_server(self, admin_server: &str) -> (r: Self)
        ensures
            r@ == (ParamsView {
                admin_server: Some(admin_server@),
                mask_mit: self@.mask_mit | mit::KADM5_CONFIG_ADMIN_SERVER,
                mask_heimdal: self@.mask_heimdal | heimdal::KADM5_CONFIG_ADMIN_SERVER,
                ..self@
            }),
    {
        Params {
            admin_server: Some(admin_server.to_owned()),
            mask_mit: self.mask_mit | mit::KADM5_CONFIG_ADMIN_SERVER,
            mask_heimdal: self.mask_heimdal | heimdal::KADM5_CONFIG_ADMIN_SERVER,
            ..self
        }
    }

    /// Set the name of the KDC database.
    pub fn dbname(self, dbname: &str) -> (r: Self)
        ensures
            r@ == (ParamsView {
                dbname: Some(dbname@),
                mask_mit: self@.mask_mit | mit::KADM5_CONFIG_DBNAME,
                mask_heimdal: self@.mask_heimdal | heimdal::KADM5_CONFIG_DBNAME,
                ..self@
            }),
    {
        Params {
            dbname: Some(dbname.to_owned()),
            mask_mit: self.mask_mit | mit::KADM5_CONFIG_DBNAME,
            mask_heimdal: self.mask_heimdal | heimdal::KADM5_CONFIG_DBNAME,
            ..self
        }
    }

    /// Set the location of the access control list file.
    pub fn acl_file(self, acl_file: &str) -> (r: Self)
        ensures
            r@ == (ParamsView {
                acl_file: Some(acl_file@),
                mask_mit: self@.mask_mit | mit::KADM5_CONFIG_ACL_FILE,
                mask_heimdal: self@.mask_heimdal | heimdal::KADM5_CONFIG_ACL_FILE,
                ..self@
            }),
    {
        Params {
            acl_file: Some(acl_file.to_owned()),
            mask_mit: self.mask_mit | mit::KADM5_CONFIG_ACL_FILE,
            mask_heimdal: self.mask_heimdal | heimdal::KADM5_CONFIG_ACL_FILE,
            ..self
        }
    }

    /// Set the location of the password dictionary file.
    ///
    /// Only meaningful for the MIT family; Heimdal has no such field, so only
    /// the MIT mask is touched.
    pub fn dict_file(self, dict_file: &str) -> (r: Self)
        ensures
            r@ == (ParamsView {
                dict_file: Some(dict_file@),
                mask_mit: self@.mask_mit | mit::KADM5_CONFIG_DICT_FILE,
                ..self@
            }),
    {
        Params {
            dict_file: Some(dict_file.to_owned()),
            mask_mit: self.mask_mit | mit::KADM5_CONFIG_DICT_FILE,
            ..self
        }
    }

    /// Set the location of the master key stash file.
    pub fn stash_file(self, stash_file: &str) -> (r: Self)
        ensures
            r@ == (ParamsView {
                stash_file: Some(stash_file@),
                mask_mit: self@.mask_mit | mit::KADM5_CONFIG_STASH_FILE,
                mask_heimdal: self@.mask_heimdal | heimdal::KADM5_CONFIG_STASH_FILE,
                ..self@
            }),
    {
        Params {
            stash_file: Some(stash_file.to_owned()),
            mask_mit: self.mask_mit | mit::KADM5_CONFIG_STASH_FILE,
            mask_heimdal: self.mask_heimdal | heimdal::KADM5_CONFIG_STASH_FILE,
            ..self
        }
    }
}

/// The abstract state of a built parameter guard.
pub struct ParamsGuardView {
    /// Which family's struct shape was built
    pub mit: bool,
    /// The family's mask of set fields
    pub mask: i64,
    /// Backing string of the realm field
    pub realm: Option<Seq<char>>,
    /// kadmind port value
    pub kadmind_port: i32,
    /// kpasswd port value (MIT shape only; zero otherwise)
    pub kpasswd_port: i32,
    /// Backing string of the admin server field
    pub admin_server: Option<Seq<char>>,
    /// Backing string of the database name field
    pub dbname: Option<Seq<char>>,
    /// Backing string of the ACL file field
    pub acl_file: Option<Seq<char>>,
    /// Backing string of the dictionary file field (MIT shape only)
    pub dict_file: Option<Seq<char>>,
    /// Backing string of the stash file field
    pub stash_file: Option<Seq<char>>,
}

/// Whether an optional backing string is absent or safe to hand to the
/// native boundary.
pub open spec fn spec_opt_nul_free(s: Option<Seq<char>>) -> bool {
    match s {
        None => true,
        Some(v) => !spec_contains_nul(v),
    }
}

/// Whether every string field that the MIT struct shape embeds can back a C
/// string.
pub open spec fn spec_mit_fields_nul_free(p: ParamsView) -> bool {
    &&& spec_opt_nul_free(p.realm)
    &&& spec_opt_nul_free(p.admin_server)
    &&& spec_opt_nul_free(p.dbname)
    &&& spec_opt_nul_free(p.acl_file)
    &&& spec_opt_nul_free(p.dict_file)
    &&& spec_opt_nul_free(p.stash_file)
}

/// Whether every string field that the Heimdal struct shape embeds can back
/// a C string. Heimdal's shape has no dictionary file.
pub open spec fn spec_heimdal_fields_nul_free(p: ParamsView) -> bool {
    &&& spec_opt_nul_free(p.realm)
    &&& spec_opt_nul_free(p.admin_server)
    &&& spec_opt_nul_free(p.dbname)
    &&& spec_opt_nul_free(p.acl_file)
    &&& spec_opt_nul_free(p.stash_file)
}

/// The guard a successful MIT build yields for `p`.
pub open spec fn spec_mit_guard(p: ParamsView) -> ParamsGuardView {
    ParamsGuardView {
        mit: true,
        mask: p.mask_mit,
        realm: p.realm,
        kadmind_port: p.kadmind_port,
        kpasswd_port: p.kpasswd_port,
        admin_server: p.admin_server,
        dbname: p.dbname,
        acl_file: p.acl_file,
        dict_file: p.dict_file,
        stash_file: p.stash_file,
    }
}

/// The guard a successful Heimdal build yields for `p`.
pub open spec fn spec_heimdal_guard(p: ParamsView) -> ParamsGuardView {
    ParamsGuardView {
        mit: false,
        mask: p.mask_heimdal,
        realm: p.realm,
        kadmind_port: p.kadmind_port,
        kpasswd_port: 0,
        admin_server: p.admin_server,
        dbname: p.dbname,
        acl_file: p.acl_file,
        dict_file: None,
        stash_file: p.stash_file,
    }
}

/// A built native config-parameter struct, bundled with the owned backing
/// strings its embedded pointers live in, so neither can outlive the other.
///
/// Every present string is validated NUL-free at build time; reading a field
/// back yields exactly the string the parameters carried.
#[derive(Debug)]
pub struct ParamsGuard {
    mit: bool,
    mask: i64,
    realm: Option<String>,
    kadmind_port: i32,
    kpasswd_port: i32,
    admin_server: Option<String>,
    dbname: Option<String>,
    acl_file: Option<String>,
    dict_file: Option<String>,
    stash_file: Option<String>,
}

impl View for ParamsGuard {
    type V = ParamsGuardView;

    closed spec fn view(&self) -> ParamsGuardView {
        ParamsGuardView {
            mit: self.mit,
            mask: self.mask,
            realm: spec_opt_str(self.realm),
            kadmind_port: self.kadmind_port,
            kpasswd_port: self.kpasswd_port,
            admin_server: spec_opt_str(self.admin_server),
            dbname: spec_opt_str(self.dbname),
            acl_file: spec_opt_str(self.acl_file),
            dict_file: spec_opt_str(self.dict_file),
            stash_file: spec_opt_str(self.stash_file),
        }
    }
}

/// Validate one optional backing string for the native boundary.
fn check_field(s: &Option<String>) -> (r: Result<(), Error>)
    ensures
        r is Ok <==> spec_opt_nul_free(spec_opt_str(*s)),
        r is Err ==> r matches Err(Error::StringConversion),
{
    match s {
        None => Ok(()),
        Some(v) => {
            if contains_nul(v.as_str()) {
                Err(Error::StringConversion)
            } else {
                Ok(())
            }
        },
    }
}

impl ParamsGuard {
    /// The guard's mask of set fields.
    pub fn mask(&self) -> (r: i64)
        ensures
            r == self@.mask,
    {
        self.mask
    }

    /// Which family's struct shape this guard was built for.
    pub fn is_mit(&self) -> (r: bool)
        ensures
            r == self@.mit,
    {
        self.mit
    }

    /// Read the realm field back from the built struct.
    pub fn realm(&self) -> (r: Option<&String>)
        ensures
            match r {
                Some(s) => self@.realm == Some(s@),
                None => self@.realm is None,
            },
    {
        self.realm.as_ref()
    }

    /// Read the admin server field back from the built struct.
    pub fn admin_server(&self) -> (r: Option<&String>)
        ensures
            match r {
                Some(s) => self@.admin_server == Some(s@),
                None => self@.admin_server is None,
            },
    {
        self.admin_server.as_ref()
    }

    /// Read the database name field back from the built struct.
    pub fn dbname(&self) -> (r: Option<&String>)
        ensures
            match r {
                Some(s) => self@.dbname == Some(s@),
                None => self@.dbname is None,
            },
    {
        self.dbname.as_ref()
    }

    /// Read the ACL file field back from the built struct.
    pub fn acl_file(&self) -> (r: Option<&String>)
        ensures
            match r {
                Some(s) => self@.acl_file == Some(s@),
                None => self@.acl_file is None,
            },
    {
        self.acl_file.as_ref()
    }

    /// Read the dictionary file field back from the built struct.
    pub fn dict_file(&self) -> (r: Option<&String>)
        ensures
            match r {
                Some(s) => self@.dict_file == Some(s@),
                None => self@.dict_file is None,
            },
    {
        self.dict_file.as_ref()
    }

    /// Read the stash file field back from the built struct.
    pub fn stash_file(&self) -> (r: Option<&String>)
        ensures
            match r {
                Some(s) => self@.stash_file == Some(s@),
                None => self@.stash_file is None,
            },
    {
        self.stash_file.as_ref()
    }

    /// The kadmind port field of the built struct.
    pub fn kadmind_port(&self) -> (r: i32)
        ensures
            r == self@.kadmind_port,
    {
        self.kadmind_port
    }

    /// The kpasswd port field of the built struct.
    pub fn kpasswd_port(&self) -> (r: i32)
        ensures
            r == self@.kpasswd_port,
    {
        self.kpasswd_port
    }

    /// Build the MIT-family struct shape: validate every present string and
    /// bundle it with the MIT mask.
    pub fn build_mit(params: &Params) -> (r: Result<ParamsGuard, Error>)
        ensures
            r is Ok <==> spec_mit_fields_nul_free(params@),
            r matches Ok(g) ==> g@ == spec_mit_guard(params@),
            r is Err ==> r matches Err(Error::StringConversion),
    {
        check_field(&params.realm)?;
        check_field(&params.admin_server)?;
        check_field(&params.dbname)?;
        check_field(&params.acl_file)?;
        check_field(&params.dict_file)?;
        check_field(&params.stash_file)?;
        Ok(
            ParamsGuard {
                mit: true,
                mask: params.mask_mit,
                realm: params.realm.clone(),
                kadmind_port: params.kadmind_port,
                kpasswd_port: params.kpasswd_port,
                admin_server: params.admin_server.clone(),
                dbname: params.dbname.clone(),
                acl_file: params.acl_file.clone(),
                dict_file: params.dict_file.clone(),
                stash_file: params.stash_file.clone(),
            },
        )
    }

    /// Build the Heimdal-family struct shape: validate every present string
    /// the shape embeds and bundle it with the Heimdal mask. Heimdal's shape
    /// has no kpasswd port and no dictionary file.
    pub fn build_heimdal(params: &Params) -> (r: Result<ParamsGuard, Error>)
        ensures
            r is Ok <==> spec_heimdal_fields_nul_free(params@),
            r matches Ok(g) ==> g@ == spec_heimdal_guard(params@),
            r is Err ==> r matches Err(Error::StringConversion),
    {
        check_field(&params.realm)?;
        check_field(&params.admin_server)?;
        check_field(&params.dbname)?;
        check_field(&params.acl_file)?;
        check_field(&params.stash_file)?;
        Ok(
            ParamsGuard {
                mit: false,
                mask: params.mask_heimdal,
                realm: params.realm.clone(),
                kadmind_port: params.kadmind_port,
                kpasswd_port: 0,
                admin_server: params.admin_server.clone(),
                dbname: params.dbname.clone(),
                acl_file: params.acl_file.clone(),
                dict_file: None,
                stash_file: params.stash_file.clone(),
            },
        )
    }

    /// Build the struct shape of whichever family `variant` belongs to.
    pub fn build(variant: crate::sys::KAdm5Variant, params: &Params) -> (r: Result<
        ParamsGuard,
        Error,
    >)
        ensures
            variant.spec_is_mit() ==> {
                &&& r is Ok <==> spec_mit_fields_nul_free(params@)
                &&& (r matches Ok(g) ==> g@ == spec_mit_guard(params@))
            },
            !variant.spec_is_mit() ==> {
                &&& r is Ok <==> spec_heimdal_fields_nul_free(params@)
                &&& (r matches Ok(g) ==> g@ == spec_heimdal_guard(params@))
            },
            r is Err ==> r matches Err(Error::StringConversion),
    {
        if variant.is_mit() {
            Self::build_mit(params)
        } else {
            Self::build_heimdal(params)
        }
    }
}

/// Whether every string field the live variant's struct shape embeds can
/// back a C string.
pub open spec fn spec_params_fields_ok(variant: crate::sys::KAdm5Variant, p: ParamsView) -> bool {
    if variant.spec_is_mit() {
        spec_mit_fields_nul_free(p)
    } else {
        spec_heimdal_fields_nul_free(p)
    }
}

/// The guard a successful build yields for the live variant's family.
pub open spec fn spec_guard_for(variant: crate::sys::KAdm5Variant, p: ParamsView) -> ParamsGuardView {
    if variant.spec_is_mit() {
        spec_mit_guard(p)
    } else {
        spec_heimdal_guard(p)
    }
}

/// Law: a realm set on fresh parameters survives the MIT build unchanged and
/// its mask bit is flagged, and fresh parameters build with mask zero.
pub proof fn lemma_config_realm_round_trip(s: Seq<char>)
    requires
        !spec_contains_nul(s),
    ensures
        ({
            let p = ParamsView { realm: Some(s), mask_mit: 0 | mit::KADM5_CONFIG_REALM, mask_heimdal: 0 | heimdal::KADM5_CONFIG_REALM, ..spec_params_new() };
            &&& spec_mit_fields_nul_free(p)
            &&& spec_mit_guard(p).realm == Some(s)
            &&& spec_mit_guard(p).mask & mit::KADM5_CONFIG_REALM != 0
            &&& spec_heimdal_fields_nul_free(p)
            &&& spec_heimdal_guard(p).realm == Some(s)
            &&& spec_heimdal_guard(p).mask & heimdal::KADM5_CONFIG_REALM != 0
        }),
        spec_mit_guard(spec_params_new()).mask == 0,
        spec_heimdal_guard(spec_params_new()).mask == 0,
{
    assert(0i64 | 1i64 == 1i64) by (bit_vector);
    assert(1i64 & 1i64 == 1i64) by (bit_vector);
}

} // verus!
