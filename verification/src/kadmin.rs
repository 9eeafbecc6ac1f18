//! Admin sessions: the builder that checks every part against the chosen
//! variant before anything native runs, the five construction entry points,
//! and the per-operation call descriptions.
//!
//! Native calls are foreign and run outside this crate. Each entry point and
//! each operation here performs every decision — variant and role gates,
//! default derivation, string validation, symbol selection — and hands back a
//! plain description of exactly one native call; a companion function turns
//! the call's reported outcome into a session, a result, or a structured
//! error. Session init and teardown calls run under the process-wide session
//! lifecycle lock.

use vstd::prelude::*;
use vstd::string::StringExecFns;

use crate::context::Context;
use crate::conv::contains_nul;
use crate::conv::spec_contains_nul;
use crate::db_args::KAdminDbArgs;
use crate::db_args::spec_args_nul_free;
use crate::error::Error;
use crate::error::spec_kadm5_error;
use crate::error::kadm5_ret_t_escape_hatch;
use crate::params::Params;
use crate::params::ParamsGuard;
use crate::params::ParamsView;
use crate::params::spec_guard_for;
use crate::params::spec_params_fields_ok;
use crate::params::spec_params_new;
use crate::sys::KAdm5Variant;
use crate::sys::KAdminOp;
use crate::sys::Library;
use crate::sys::KADM5_ADMIN_SERVICE;
use crate::sys::heimdal;
use crate::sys::mit;
use crate::sys::spec_op_symbol;
use crate::sys::symbol_name;

verus! {

/// kadm5 API version. MIT supports up to version 4; Heimdal only version 2.
#[derive(Copy, Clone, Debug, PartialEq, Eq, Hash, Structural)]
pub enum KAdminApiVersion {
    /// Version 2, supported by every variant
    Version2,
    /// Version 3, only usable with MIT kadm5
    Version3,
    /// Version 4, only usable with MIT kadm5
    Version4,
}

impl Default for KAdminApiVersion {
    /// The most conservative version, supported everywhere.
    fn default() -> (r: Self)
        ensures
            r == KAdminApiVersion::Version2,
    {
        KAdminApiVersion::Version2
    }
}

/// The native encoding of an API version for a variant, or `None` when that
/// variant's library does not speak the version.
pub open spec fn spec_api_raw(api: KAdminApiVersion, variant: KAdm5Variant) -> Option<u32> {
    match api {
        KAdminApiVersion::Version2 => Some(mit::KADM5_API_VERSION_2),
        KAdminApiVersion::Version3 => if variant.spec_is_mit() {
            Some(mit::KADM5_API_VERSION_3)
        } else {
            None
        },
        KAdminApiVersion::Version4 => if variant.spec_is_mit() {
            Some(mit::KADM5_API_VERSION_4)
        } else {
            None
        },
    }
}

impl KAdminApiVersion {
    /// Encode this version for the live variant, rejecting versions the
    /// variant's library does not speak.
    pub fn to_raw(self, variant: KAdm5Variant) -> (r: Result<u32, Error>)
        ensures
            match r {
                Ok(v) => spec_api_raw(self, variant) == Some(v),
                Err(e) => spec_api_raw(self, variant) is None && e matches Error::LibraryMismatch(
                    _,
                ),
            },
    {
        match self {
            KAdminApiVersion::Version2 => {
                if variant.is_mit() {
                    Ok(mit::KADM5_API_VERSION_2)
                } else {
                    Ok(heimdal::KADM5_API_VERSION_2)
                }
            },
            KAdminApiVersion::Version3 => {
                if variant.is_mit() {
                    Ok(mit::KADM5_API_VERSION_3)
                } else {
                    Err(Error::LibraryMismatch("Version 3 is only available for MIT kadm5"))
                }
            },
            KAdminApiVersion::Version4 => {
                if variant.is_mit() {
                    Ok(mit::KADM5_API_VERSION_4)
                } else {
                    Err(Error::LibraryMismatch("Version 4 is only available for MIT kadm5"))
                }
            },
        }
    }
}

/// A live admin session: one native server handle, bound to the context (and
/// so to the variant) it was opened through.
///
/// Sessions only ever exist live: a failed init yields an error, never a
/// session value. A handle of zero marks a session whose native state is
/// already gone; its teardown is a guarded no-op.
#[derive(Debug)]
pub struct KAdmin {
    context: Context,
    server_handle: u64,
}

/// One native session-init call, fully decided and validated: which symbol
/// to call, with which strings, parameter guard, database arguments and
/// version constants. Runs under the session lifecycle lock.
#[derive(Debug)]
pub struct InitCall {
    /// Which symbolic operation the symbol belongs to
    pub op: KAdminOp,
    /// The native symbol to call for the live variant
    pub symbol: &'static str,
    /// The client (administrator) principal name, NUL-free
    pub client_name: String,
    /// The password, for password-based init
    pub password: Option<String>,
    /// The keytab path, for keytab-based init
    pub keytab: Option<String>,
    /// The credentials cache handle, for ccache-based init (zero = null,
    /// as the local entry point passes)
    pub ccache: u64,
    /// The service principal to authenticate to
    pub service_name: String,
    /// The config-parameter struct with its backing strings
    pub params: ParamsGuard,
    /// The database arguments array
    pub db_args: KAdminDbArgs,
    /// The native struct-version constant to pass
    pub struct_version: u32,
    /// The native api-version constant to pass
    pub api_version: u32,
}

/// A fully validated session init: the context the call runs against plus
/// the call description. Completing it with the call's outcome yields the
/// live session or the error the outcome maps to.
#[derive(Debug)]
pub struct SessionInit {
    context: Context,
    /// The native call to perform
    pub call: InitCall,
}

impl SessionInit {
    /// The variant everything in this init was checked against.
    pub closed spec fn spec_variant(&self) -> KAdm5Variant {
        self.context.spec_variant()
    }

    /// The native context handle the init call runs against.
    pub closed spec fn spec_context_handle(&self) -> u64 {
        self.context.spec_handle()
    }

    /// The call description, as seen by specifications.
    pub closed spec fn spec_call(&self) -> InitCall {
        self.call
    }

    /// The context the init call runs against.
    pub fn context(&self) -> (r: &Context)
        ensures
            r.spec_variant() == self.spec_variant(),
            r.spec_handle() == self.spec_context_handle(),
    {
        &self.context
    }

    /// Turn the native init outcome into a live session or an error. Only a
    /// success code yields a session; it owns exactly the handle the call
    /// produced and keeps the context the call ran against.
    pub fn complete(self, server_handle: u64, code: i64, krb5_message: String) -> (r: Result<
        KAdmin,
        Error,
    >)
        ensures
            r is Ok <==> code == crate::KADM5_OK,
            r matches Ok(k) ==> k.spec_variant() == self.spec_variant()
                && k.spec_context_handle() == self.spec_context_handle() && k.spec_server_handle()
                == server_handle,
            r matches Err(e) ==> spec_kadm5_error(self.spec_variant(), code, krb5_message@, e),
    {
        let variant = self.context.variant();
        match kadm5_ret_t_escape_hatch(variant, code, krb5_message) {
            Ok(()) => Ok(KAdmin { context: self.context, server_handle }),
            Err(e) => Err(e),
        }
    }
}

/// Which way the builder's context will be obtained.
#[derive(Copy, Clone, Debug, PartialEq, Eq, Structural)]
pub enum ContextPlan {
    /// The builder holds a ready context; take and use it.
    UseContext,
    /// The builder holds a loaded library; create a context through it.
    UseLibrary,
    /// Nothing is held; load the variant's library, then create a context.
    LoadLibrary,
}

/// [`KAdmin`] builder: collects the variant, an optional library or context,
/// parameters, database arguments and the API version, and checks them all
/// against each other before any native call is described.
#[derive(Debug)]
pub struct KAdminBuilder {
    variant: KAdm5Variant,
    library: Option<Library>,
    context: Option<Context>,
    params: Option<Params>,
    db_args: Option<KAdminDbArgs>,
    api_version: KAdminApiVersion,
}

impl KAdmin {
    /// Construct a new [`KAdminBuilder`] for a variant.
    pub fn builder(variant: KAdm5Variant) -> (r: KAdminBuilder)
        ensures
            r.spec_variant() == variant,
            r.spec_library() is None,
            r.spec_context() is None,
            r.spec_params() == spec_params_new(),
            r.spec_db_args() == Seq::<Seq<char>>::empty(),
            r.spec_api_version() == KAdminApiVersion::Version2,
    {
        KAdminBuilder {
            variant,
            library: None,
            context: None,
            params: None,
            db_args: None,
            api_version: KAdminApiVersion::Version2,
        }
    }

    /// The variant this session dispatches through.
    pub closed spec fn spec_variant(&self) -> KAdm5Variant {
        self.context.spec_variant()
    }

    /// The native context handle of the session's context.
    pub closed spec fn spec_context_handle(&self) -> u64 {
        self.context.spec_handle()
    }

    /// The native server handle (zero marks an already-gone handle).
    pub closed spec fn spec_server_handle(&self) -> u64 {
        self.server_handle
    }

    /// Retrieve the kadm5 variant used.
    pub fn variant(&self) -> (r: KAdm5Variant)
        ensures
            r == self.spec_variant(),
    {
        self.context.variant()
    }

    /// The context this session was opened through.
    pub fn context(&self) -> (r: &Context)
        ensures
            r.spec_variant() == self.spec_variant(),
            r.spec_handle() == self.spec_context_handle(),
    {
        &self.context
    }

    /// The native server handle, for the call sites that use it.
    pub fn server_handle(&self) -> (r: u64)
        ensures
            r == self.spec_server_handle(),
    {
        self.server_handle
    }
}

impl KAdminBuilder {
    /// The variant this builder was created for.
    pub closed spec fn spec_variant(&self) -> KAdm5Variant {
        self.variant
    }

    /// The library the builder holds, if any.
    pub closed spec fn spec_library(&self) -> Option<Library> {
        self.library
    }

    /// The context the builder holds, if any.
    pub closed spec fn spec_context(&self) -> Option<Context> {
        self.context
    }

    /// The parameters that will be built, defaulted when none were given.
    pub closed spec fn spec_params(&self) -> ParamsView {
        match self.params {
            Some(ref p) => p@,
            None => spec_params_new(),
        }
    }

    /// The database arguments that will be passed, defaulted when none were
    /// given.
    pub closed spec fn spec_db_args(&self) -> Seq<Seq<char>> {
        match self.db_args {
            Some(ref d) => d.spec_args(),
            None => Seq::<Seq<char>>::empty(),
        }
    }

    /// The API version that will be requested.
    pub closed spec fn spec_api_version(&self) -> KAdminApiVersion {
        self.api_version
    }

    /// Create a new [`KAdminBuilder`] instance.
    pub fn new(variant: KAdm5Variant) -> (r: Self)
        ensures
            r.spec_variant() == variant,
            r.spec_library() is None,
            r.spec_context() is None,
            r.spec_params() == spec_params_new(),
            r.spec_db_args() == Seq::<Seq<char>>::empty(),
            r.spec_api_version() == KAdminApiVersion::Version2,
    {
        KAdmin::builder(variant)
    }

    /// Set the [`Library`] to use for this [`KAdmin`] instance.
    pub fn library(self, library: Library) -> (r: Self)
        ensures
            r.spec_library() == Some(library),
            r.spec_variant() == self.spec_variant(),
            r.spec_context() == self.spec_context(),
            r.spec_params() == self.spec_params(),
            r.spec_db_args() == self.spec_db_args(),
            r.spec_api_version() == self.spec_api_version(),
    {
        KAdminBuilder { library: Some(library), ..self }
    }

    /// Set the [`Context`] to use for this [`KAdmin`] instance.
    pub fn context(self, context: Context) -> (r: Self)
        ensures
            r.spec_context() == Some(context),
            r.spec_variant() == self.spec_variant(),
            r.spec_library() == self.spec_library(),
            r.spec_params() == self.spec_params(),
            r.spec_db_args() == self.spec_db_args(),
            r.spec_api_version() == self.spec_api_version(),
    {
        KAdminBuilder { context: Some(context), ..self }
    }

    /// Provide additional [`Params`] to this [`KAdmin`] instance.
    pub fn params(self, params: Params) -> (r: Self)
        ensures
            r.spec_params() == params@,
            r.spec_variant() == self.spec_variant(),
            r.spec_library() == self.spec_library(),
            r.spec_context() == self.spec_context(),
            r.spec_db_args() == self.spec_db_args(),
            r.spec_api_version() == self.spec_api_version(),
    {
        KAdminBuilder { params: Some(params), ..self }
    }

    /// Provide additional [`KAdminDbArgs`] to this [`KAdmin`] instance.
    pub fn db_args(self, db_args: KAdminDbArgs) -> (r: Self)
        ensures
            r.spec_db_args() == db_args.spec_args(),
            r.spec_variant() == self.spec_variant(),
            r.spec_library() == self.spec_library(),
            r.spec_context() == self.spec_context(),
            r.spec_params() == self.spec_params(),
            r.spec_api_version() == self.spec_api_version(),
    {
        KAdminBuilder { db_args: Some(db_args), ..self }
    }

    /// Set the kadm5 API version to use.
    pub fn api_version(self, api_version: KAdminApiVersion) -> (r: Self)
        ensures
            r.spec_api_version() == api_version,
            r.spec_variant() == self.spec_variant(),
            r.spec_library() == self.spec_library(),
            r.spec_context() == self.spec_context(),
            r.spec_params() == self.spec_params(),
            r.spec_db_args() == self.spec_db_args(),
    {
        KAdminBuilder { api_version, ..self }
    }

    /// Decide how the session's context will be obtained, rejecting every
    /// mismatched combination before any native call: a library and a
    /// context cannot both be supplied, and whichever is supplied must have
    /// been built for this builder's variant.
    pub fn context_plan(&self) -> (r: Result<ContextPlan, Error>)
        ensures
            r is Ok <==> {
                &&& !(self.spec_library() is Some && self.spec_context() is Some)
                &&& (self.spec_library() matches Some(l) ==> l.spec_variant()
                    == self.spec_variant())
                &&& (self.spec_context() matches Some(c) ==> c.spec_variant()
                    == self.spec_variant())
            },
            r matches Ok(p) ==> p == if self.spec_context() is Some {
                ContextPlan::UseContext
            } else if self.spec_library() is Some {
                ContextPlan::UseLibrary
            } else {
                ContextPlan::LoadLibrary
            },
            r matches Err(e) ==> e matches Error::LibraryMismatch(_),
    {
        if self.library.is_some() && self.context.is_some() {
            return Err(
                Error::LibraryMismatch("Both library and context cannot be set at the same time"),
            );
        }
        match &self.library {
            Some(library) => {
                if !variants_equal(library.variant(), self.variant) {
                    return Err(
                        Error::LibraryMismatch("Library variant and builder variant don't match"),
                    );
                }
            },
            None => {},
        }
        match &self.context {
            Some(context) => {
                if !variants_equal(context.variant(), self.variant) {
                    return Err(
                        Error::LibraryMismatch("Context variant and builder variant don't match"),
                    );
                }
                return Ok(ContextPlan::UseContext);
            },
            None => {},
        }
        if self.library.is_some() {
            Ok(ContextPlan::UseLibrary)
        } else {
            Ok(ContextPlan::LoadLibrary)
        }
    }

    /// Hand the stored context out, for the plan step that uses it.
    pub fn take_context(&mut self) -> (r: Option<Context>)
        ensures
            r == old(self).spec_context(),
            final(self).spec_context() is None,
            final(self).spec_variant() == old(self).spec_variant(),
            final(self).spec_library() == old(self).spec_library(),
            final(self).spec_params() == old(self).spec_params(),
            final(self).spec_db_args() == old(self).spec_db_args(),
            final(self).spec_api_version() == old(self).spec_api_version(),
    {
        self.context.take()
    }

    /// Hand the stored library out, for the plan step that creates a context
    /// through it.
    pub fn take_library(&mut self) -> (r: Option<Library>)
        ensures
            r == old(self).spec_library(),
            final(self).spec_library() is None,
            final(self).spec_variant() == old(self).spec_variant(),
            final(self).spec_context() == old(self).spec_context(),
            final(self).spec_params() == old(self).spec_params(),
            final(self).spec_db_args() == old(self).spec_db_args(),
            final(self).spec_api_version() == old(self).spec_api_version(),
    {
        self.library.take()
    }
}

/// Compare two variant values.
fn variants_equal(a: KAdm5Variant, b: KAdm5Variant) -> (r: bool)
    ensures
        r == (a == b),
{
    a == b
}

/// Empty database arguments.
fn default_db_args() -> (r: KAdminDbArgs)
    ensures
        r.spec_args() == Seq::<Seq<char>>::empty(),
{
    let builder = KAdminDbArgs::builder();
    proof {
        assert(spec_args_nul_free(Seq::<(Seq<char>, Option<Seq<char>>)>::empty()));
    }
    match builder.build() {
        Ok(d) => d,
        Err(_) => unreached(),
    }
}

/// The view of an optional borrowed string.
pub open spec fn spec_opt_view(s: Option<&str>) -> Option<Seq<char>> {
    match s {
        None => None,
        Some(v) => Some(v@),
    }
}

/// The checks every session entry point makes before describing its native
/// call: the context was built for the builder's variant, the variant's
/// library speaks the requested API version, and the config parameters can
/// back the variant's native struct.
pub open spec fn spec_entry_common_ok(
    variant: KAdm5Variant,
    context_variant: KAdm5Variant,
    api: KAdminApiVersion,
    params: ParamsView,
) -> bool {
    &&& context_variant == variant
    &&& spec_api_raw(api, variant) is Some
    &&& spec_params_fields_ok(variant, params)
}

/// What an init call carries for every entry point, given the builder it
/// came from.
pub open spec fn spec_init_call_common(
    call: InitCall,
    variant: KAdm5Variant,
    api: KAdminApiVersion,
    params: ParamsView,
    db_args: Seq<Seq<char>>,
) -> bool {
    &&& spec_op_symbol(variant, call.op) == Some(call.symbol@)
    &&& call.service_name@ == KADM5_ADMIN_SERVICE@
    &&& call.params@ == spec_guard_for(variant, params)
    &&& call.db_args.spec_args() == db_args
    &&& call.struct_version == 0x12345601u32
    &&& Some(call.api_version) == spec_api_raw(api, variant)
}

/// Whether an entry point's dispatch gates fail: a role the variant does not
/// play, a context built for a different variant, or an API version the
/// variant's library does not speak. Every such failure is a library
/// mismatch, raised before anything else is validated.
pub open spec fn spec_entry_gate_mismatch(
    role_ok: bool,
    variant: KAdm5Variant,
    context_variant: KAdm5Variant,
    api: KAdminApiVersion,
) -> bool {
    ||| !role_ok
    ||| context_variant != variant
    ||| spec_api_raw(api, variant) is None
}

/// The client name the keytab and ccache entry points settle on: the given
/// name when one was supplied, else the natively resolved default.
pub open spec fn spec_default_client(
    client_name: Option<Seq<char>>,
    resolved: Option<Seq<char>>,
) -> Option<Seq<char>> {
    if client_name is Some {
        client_name
    } else {
        resolved
    }
}

/// The admin client name the local entry point derives when none is
/// configured.
pub open spec fn spec_local_client(default_realm: Option<Seq<char>>) -> Seq<char> {
    match default_realm {
        Some(realm) => "root/admin@"@ + realm,
        None => "root/admin"@,
    }
}

impl KAdminBuilder {
    /// Gather and check everything an init call needs: the variant match of
    /// the supplied context, the API version encoding, the built parameter
    /// guard, the database arguments and the version constants.
    fn get_kadmin(self, context: Context) -> (r: Result<
        (Context, ParamsGuard, KAdminDbArgs, u32, String, u32),
        Error,
    >)
        ensures
            r is Ok <==> spec_entry_common_ok(
                self.spec_variant(),
                context.spec_variant(),
                self.spec_api_version(),
                self.spec_params(),
            ),
            r matches Ok((c, guard, db_args, api, service, sv)) ==> {
                &&& c.spec_variant() == context.spec_variant()
                &&& c.spec_image() == context.spec_image()
                &&& c.spec_handle() == context.spec_handle()
                &&& c.spec_default_realm() == context.spec_default_realm()
                &&& guard@ == spec_guard_for(self.spec_variant(), self.spec_params())
                &&& db_args.spec_args() == self.spec_db_args()
                &&& Some(api) == spec_api_raw(self.spec_api_version(), self.spec_variant())
                &&& service@ == KADM5_ADMIN_SERVICE@
                &&& sv == 0x12345601u32
            },
            context.spec_variant() != self.spec_variant() ==> (r matches Err(e) && e
                matches Error::LibraryMismatch(_)),
            context.spec_variant() == self.spec_variant() && spec_api_raw(
                self.spec_api_version(),
                self.spec_variant(),
            ) is None ==> (r matches Err(e) && e matches Error::LibraryMismatch(_)),
            context.spec_variant() == self.spec_variant() && spec_api_raw(
                self.spec_api_version(),
                self.spec_variant(),
            ) is Some ==> (r matches Err(e) ==> e matches Error::StringConversion),
    {
        if !variants_equal(context.variant(), self.variant) {
            return Err(Error::LibraryMismatch("Context variant and builder variant don't match"));
        }
        let api = match self.api_version.to_raw(self.variant) {
            Ok(v) => v,
            Err(e) => {
                return Err(e);
            },
        };
        let params = match self.params {
            Some(p) => p,
            None => Params::new(),
        };
        let guard = match ParamsGuard::build(self.variant, &params) {
            Ok(g) => g,
            Err(e) => {
                return Err(e);
            },
        };
        let db_args = match self.db_args {
            Some(d) => d,
            None => default_db_args(),
        };
        let service = String::from_str(KADM5_ADMIN_SERVICE);
        let sv = if self.variant.is_mit() {
            mit::KADM5_STRUCT_VERSION
        } else {
            heimdal::KADM5_STRUCT_VERSION
        };
        Ok((context, guard, db_args, api, service, sv))
    }

    /// Describe a session init using a client name and a password.
    ///
    /// Only client-side variants may open password sessions.
    pub fn with_password(self, context: Context, client_name: &str, password: &str) -> (r: Result<
        SessionInit,
        Error,
    >)
        ensures
            r is Ok <==> {
                &&& self.spec_variant().spec_is_client()
                &&& spec_entry_common_ok(
                    self.spec_variant(),
                    context.spec_variant(),
                    self.spec_api_version(),
                    self.spec_params(),
                )
                &&& !spec_contains_nul(client_name@)
                &&& !spec_contains_nul(password@)
            },
            r matches Ok(init) ==> {
                &&& init.spec_variant() == self.spec_variant()
                &&& init.spec_context_handle() == context.spec_handle()
                &&& init.spec_call().op == KAdminOp::InitWithPassword
                &&& spec_init_call_common(
                    init.spec_call(),
                    self.spec_variant(),
                    self.spec_api_version(),
                    self.spec_params(),
                    self.spec_db_args(),
                )
                &&& init.spec_call().client_name@ == client_name@
                &&& (init.spec_call().password matches Some(p) && p@ == password@)
                &&& init.spec_call().keytab is None
                &&& init.spec_call().ccache == 0
            },
            spec_entry_gate_mismatch(
                self.spec_variant().spec_is_client(),
                self.spec_variant(),
                context.spec_variant(),
                self.spec_api_version(),
            ) ==> (r matches Err(e) && e matches Error::LibraryMismatch(_)),
            !spec_entry_gate_mismatch(
                self.spec_variant().spec_is_client(),
                self.spec_variant(),
                context.spec_variant(),
                self.spec_api_version(),
            ) ==> (r matches Err(e) ==> e matches Error::StringConversion),
    {
        if !self.variant.is_client() {
            return Err(
                Error::LibraryMismatch("with_password can only be used with client-side libraries"),
            );
        }
        let variant = self.variant;
        let (context, params, db_args, api_version, service_name, struct_version) =
            match self.get_kadmin(context) {
            Ok(parts) => parts,
            Err(e) => {
                return Err(e);
            },
        };
        if contains_nul(client_name) {
            return Err(Error::StringConversion);
        }
        if contains_nul(password) {
            return Err(Error::StringConversion);
        }
        let symbol = match symbol_name(variant, KAdminOp::InitWithPassword) {
            Ok(s) => s,
            Err(_) => unreached(),
        };
        Ok(
            SessionInit {
                context,
                call: InitCall {
                    op: KAdminOp::InitWithPassword,
                    symbol,
                    client_name: client_name.to_owned(),
                    password: Some(password.to_owned()),
                    keytab: None,
                    ccache: 0,
                    service_name,
                    params,
                    db_args,
                    struct_version,
                    api_version,
                },
            },
        )
    }

    /// Describe a session init using an optional client name and an optional
    /// keytab path.
    ///
    /// When no client name is given, `resolved_client` — the name the native
    /// host-service lookup returned — is used; when no keytab is given, the
    /// conventional default keytab path is used. Only client-side variants
    /// may open keytab sessions.
    pub fn with_keytab(
        self,
        context: Context,
        client_name: Option<&str>,
        keytab: Option<&str>,
        resolved_client: Option<&str>,
    ) -> (r: Result<SessionInit, Error>)
        ensures
            r is Ok <==> {
                &&& self.spec_variant().spec_is_client()
                &&& spec_entry_common_ok(
                    self.spec_variant(),
                    context.spec_variant(),
                    self.spec_api_version(),
                    self.spec_params(),
                )
                &&& (spec_default_client(spec_opt_view(client_name), spec_opt_view(resolved_client))
                    matches Some(c) && !spec_contains_nul(c))
                &&& !spec_contains_nul(
                    match spec_opt_view(keytab) {
                        Some(k) => k,
                        None => "/etc/krb5.keytab"@,
                    },
                )
            },
            r matches Ok(init) ==> {
                &&& init.spec_variant() == self.spec_variant()
                &&& init.spec_context_handle() == context.spec_handle()
                &&& init.spec_call().op == KAdminOp::InitWithSkey
                &&& spec_init_call_common(
                    init.spec_call(),
                    self.spec_variant(),
                    self.spec_api_version(),
                    self.spec_params(),
                    self.spec_db_args(),
                )
                &&& Some(init.spec_call().client_name@) == spec_default_client(
                    spec_opt_view(client_name),
                    spec_opt_view(resolved_client),
                )
                &&& init.spec_call().password is None
                &&& (init.spec_call().keytab matches Some(k) && k@ == match spec_opt_view(keytab) {
                    Some(kt) => kt,
                    None => "/etc/krb5.keytab"@,
                })
                &&& init.spec_call().ccache == 0
            },
            spec_entry_gate_mismatch(
                self.spec_variant().spec_is_client(),
                self.spec_variant(),
                context.spec_variant(),
                self.spec_api_version(),
            ) ==> (r matches Err(e) && e matches Error::LibraryMismatch(_)),
            !spec_entry_gate_mismatch(
                self.spec_variant().spec_is_client(),
                self.spec_variant(),
                context.spec_variant(),
                self.spec_api_version(),
            ) && !spec_params_fields_ok(self.spec_variant(), self.spec_params()) ==> (r matches Err(
                e,
            ) && e matches Error::StringConversion),
            !spec_entry_gate_mismatch(
                self.spec_variant().spec_is_client(),
                self.spec_variant(),
                context.spec_variant(),
                self.spec_api_version(),
            ) && spec_params_fields_ok(self.spec_variant(), self.spec_params())
                && spec_default_client(spec_opt_view(client_name), spec_opt_view(resolved_client))
                is None ==> (r matches Err(e) && e matches Error::NullPointerDereference),
            !spec_entry_gate_mismatch(
                self.spec_variant().spec_is_client(),
                self.spec_variant(),
                context.spec_variant(),
                self.spec_api_version(),
            ) && spec_params_fields_ok(self.spec_variant(), self.spec_params())
                && spec_default_client(spec_opt_view(client_name), spec_opt_view(resolved_client))
                is Some ==> (r matches Err(e) ==> e matches Error::StringConversion),
    {
        if !self.variant.is_client() {
            return Err(
                Error::LibraryMismatch("with_keytab can only be used with client-side libraries"),
            );
        }
        let variant = self.variant;
        let (context, params, db_args, api_version, service_name, struct_version) =
            match self.get_kadmin(context) {
            Ok(parts) => parts,
            Err(e) => {
                return Err(e);
            },
        };
        let chosen_client = match client_name {
            Some(c) => c,
            None => match resolved_client {
                Some(c) => c,
                None => {
                    return Err(Error::NullPointerDereference);
                },
            },
        };
        if contains_nul(chosen_client) {
            return Err(Error::StringConversion);
        }
        let chosen_keytab = match keytab {
            Some(k) => k,
            None => "/etc/krb5.keytab",
        };
        if contains_nul(chosen_keytab) {
            return Err(Error::StringConversion);
        }
        let symbol = match symbol_name(variant, KAdminOp::InitWithSkey) {
            Ok(s) => s,
            Err(_) => unreached(),
        };
        Ok(
            SessionInit {
                context,
                call: InitCall {
                    op: KAdminOp::InitWithSkey,
                    symbol,
                    client_name: chosen_client.to_owned(),
                    password: None,
                    keytab: Some(chosen_keytab.to_owned()),
                    ccache: 0,
                    service_name,
                    params,
                    db_args,
                    struct_version,
                    api_version,
                },
            },
        )
    }

    /// Describe a session init using an optional client name and a resolved
    /// credentials cache.
    ///
    /// The cache handle comes from the native resolve described by
    /// [`ccache_request`]. When no client name is given, `cache_principal` —
    /// the default principal the native cache lookup returned — is used.
    /// Only client-side variants may open credentials-cache sessions.
    pub fn with_ccache(
        self,
        context: Context,
        client_name: Option<&str>,
        ccache: u64,
        cache_principal: Option<&str>,
    ) -> (r: Result<SessionInit, Error>)
        ensures
            r is Ok <==> {
                &&& self.spec_variant().spec_is_client()
                &&& spec_entry_common_ok(
                    self.spec_variant(),
                    context.spec_variant(),
                    self.spec_api_version(),
                    self.spec_params(),
                )
                &&& (spec_default_client(spec_opt_view(client_name), spec_opt_view(cache_principal))
                    matches Some(c) && !spec_contains_nul(c))
            },
            r matches Ok(init) ==> {
                &&& init.spec_variant() == self.spec_variant()
                &&& init.spec_context_handle() == context.spec_handle()
                &&& init.spec_call().op == KAdminOp::InitWithCreds
                &&& spec_init_call_common(
                    init.spec_call(),
                    self.spec_variant(),
                    self.spec_api_version(),
                    self.spec_params(),
                    self.spec_db_args(),
                )
                &&& Some(init.spec_call().client_name@) == spec_default_client(
                    spec_opt_view(client_name),
                    spec_opt_view(cache_principal),
                )
                &&& init.spec_call().password is None
                &&& init.spec_call().keytab is None
                &&& init.spec_call().ccache == ccache
            },
            spec_entry_gate_mismatch(
                self.spec_variant().spec_is_client(),
                self.spec_variant(),
                context.spec_variant(),
                self.spec_api_version(),
            ) ==> (r matches Err(e) && e matches Error::LibraryMismatch(_)),
            !spec_entry_gate_mismatch(
                self.spec_variant().spec_is_client(),
                self.spec_variant(),
                context.spec_variant(),
                self.spec_api_version(),
            ) && !spec_params_fields_ok(self.spec_variant(), self.spec_params()) ==> (r matches Err(
                e,
            ) && e matches Error::StringConversion),
            !spec_entry_gate_mismatch(
                self.spec_variant().spec_is_client(),
                self.spec_variant(),
                context.spec_variant(),
                self.spec_api_version(),
            ) && spec_params_fields_ok(self.spec_variant(), self.spec_params())
                && spec_default_client(spec_opt_view(client_name), spec_opt_view(cache_principal))
                is None ==> (r matches Err(e) && e matches Error::NullPointerDereference),
            !spec_entry_gate_mismatch(
                self.spec_variant().spec_is_client(),
                self.spec_variant(),
                context.spec_variant(),
                self.spec_api_version(),
            ) && spec_params_fields_ok(self.spec_variant(), self.spec_params())
                && spec_default_client(spec_opt_view(client_name), spec_opt_view(cache_principal))
                is Some ==> (r matches Err(e) ==> e matches Error::StringConversion),
    {
        if !self.variant.is_client() {
            return Err(
                Error::LibraryMismatch("with_ccache can only be used with client-side libraries"),
            );
        }
        let variant = self.variant;
        let (context, params, db_args, api_version, service_name, struct_version) =
            match self.get_kadmin(context) {
            Ok(parts) => parts,
            Err(e) => {
                return Err(e);
            },
        };
        let chosen_client = match client_name {
            Some(c) => c,
            None => match cache_principal {
                Some(c) => c,
                None => {
                    return Err(Error::NullPointerDereference);
                },
            },
        };
        if contains_nul(chosen_client) {
            return Err(Error::StringConversion);
        }
        let symbol = match symbol_name(variant, KAdminOp::InitWithCreds) {
            Ok(s) => s,
            Err(_) => unreached(),
        };
        Ok(
            SessionInit {
                context,
                call: InitCall {
                    op: KAdminOp::InitWithCreds,
                    symbol,
                    client_name: chosen_client.to_owned(),
                    password: None,
                    keytab: None,
                    ccache,
                    service_name,
                    params,
                    db_args,
                    struct_version,
                    api_version,
                },
            },
        )
    }

    /// Anonymous authentication is not implemented; the entry point exists
    /// so callers get a structured error rather than a missing method.
    pub fn with_anonymous(self, _client_name: &str) -> (r: Result<SessionInit, Error>)
        ensures
            r matches Err(e) && e matches Error::LibraryMismatch(_),
    {
        Err(Error::LibraryMismatch("anonymous authentication is not implemented"))
    }

    /// Describe a session init for local database manipulation.
    ///
    /// Derives the admin client name from the context's cached default realm
    /// — `root/admin@REALM`, or bare `root/admin` when no realm was cached —
    /// and passes a null credentials cache, as the local entry point does.
    /// Only server-side variants may open local sessions.
    pub fn with_local(self, context: Context) -> (r: Result<SessionInit, Error>)
        ensures
            r is Ok <==> {
                &&& !self.spec_variant().spec_is_client()
                &&& spec_entry_common_ok(
                    self.spec_variant(),
                    context.spec_variant(),
                    self.spec_api_version(),
                    self.spec_params(),
                )
                &&& !spec_contains_nul(spec_local_client(context.spec_default_realm()))
            },
            r matches Ok(init) ==> {
                &&& init.spec_variant() == self.spec_variant()
                &&& init.spec_context_handle() == context.spec_handle()
                &&& init.spec_call().op == KAdminOp::InitWithCreds
                &&& spec_init_call_common(
                    init.spec_call(),
                    self.spec_variant(),
                    self.spec_api_version(),
                    self.spec_params(),
                    self.spec_db_args(),
                )
                &&& init.spec_call().client_name@ == spec_local_client(context.spec_default_realm())
                &&& init.spec_call().password is None
                &&& init.spec_call().keytab is None
                &&& init.spec_call().ccache == 0
            },
            spec_entry_gate_mismatch(
                !self.spec_variant().spec_is_client(),
                self.spec_variant(),
                context.spec_variant(),
                self.spec_api_version(),
            ) ==> (r matches Err(e) && e matches Error::LibraryMismatch(_)),
            !spec_entry_gate_mismatch(
                !self.spec_variant().spec_is_client(),
                self.spec_variant(),
                context.spec_variant(),
                self.spec_api_version(),
            ) ==> (r matches Err(e) ==> e matches Error::StringConversion),
    {
        if !self.variant.is_server() {
            return Err(
                Error::LibraryMismatch("with_local can only be used with server-side libraries"),
            );
        }
        let variant = self.variant;
        let (context, params, db_args, api_version, service_name, struct_version) =
            match self.get_kadmin(context) {
            Ok(parts) => parts,
            Err(e) => {
                return Err(e);
            },
        };
        let client_name = match context.default_realm() {
            Some(realm) => {
                let mut s = String::from_str("root/admin@");
                s.append(realm.as_str());
                s
            },
            None => String::from_str("root/admin"),
        };
        if contains_nul(client_name.as_str()) {
            return Err(Error::StringConversion);
        }
        let symbol = match symbol_name(variant, KAdminOp::InitWithCreds) {
            Ok(s) => s,
            Err(_) => unreached(),
        };
        Ok(
            SessionInit {
                context,
                call: InitCall {
                    op: KAdminOp::InitWithCreds,
                    symbol,
                    client_name,
                    password: None,
                    keytab: None,
                    ccache: 0,
                    service_name,
                    params,
                    db_args,
                    struct_version,
                    api_version,
                },
            },
        )
    }
}

/// The native call that opens (or defaults) a credentials cache, decided
/// from an optional cache name.
#[derive(Debug)]
pub struct CcacheRequest {
    /// The resolve-by-name or open-default symbol for the live variant
    pub symbol: &'static str,
    /// The cache name to resolve, when one was given
    pub name: Option<String>,
}

/// A native call on two parsed principals (rename).
#[derive(Debug)]
pub struct RenamePrincipalCall {
    /// The native symbol to call
    pub symbol: &'static str,
    /// The server handle the call runs against
    pub server_handle: u64,
    /// The current principal name, NUL-free, still to be parsed natively
    pub old_name: String,
    /// The new principal name, NUL-free, still to be parsed natively
    pub new_name: String,
}

/// A native call on one parsed principal (delete).
#[derive(Debug)]
pub struct DeletePrincipalCall {
    /// The native symbol to call
    pub symbol: &'static str,
    /// The server handle the call runs against
    pub server_handle: u64,
    /// The principal name, NUL-free, still to be parsed natively
    pub name: String,
}

/// A native fetch of a principal's string attributes (MIT extension).
#[derive(Debug)]
pub struct GetStringsCall {
    /// The fetch symbol
    pub symbol: &'static str,
    /// The symbol that releases the fetched array afterwards
    pub free_symbol: &'static str,
    /// The server handle the call runs against
    pub server_handle: u64,
    /// The principal name, NUL-free, still to be parsed natively
    pub name: String,
}

/// A native set of one string attribute on a principal (MIT extension).
#[derive(Debug)]
pub struct SetStringCall {
    /// The native symbol to call
    pub symbol: &'static str,
    /// The server handle the call runs against
    pub server_handle: u64,
    /// The principal name, NUL-free, still to be parsed natively
    pub name: String,
    /// The attribute key, NUL-free
    pub key: String,
    /// The attribute value; absent removes the attribute
    pub value: Option<String>,
}

/// A native password change on one parsed principal.
#[derive(Debug)]
pub struct ChangePasswordCall {
    /// The native symbol to call: the plain change or, when old keys are
    /// kept, the extended variant
    pub symbol: &'static str,
    /// The server handle the call runs against
    pub server_handle: u64,
    /// The principal name, NUL-free, still to be parsed natively
    pub name: String,
    /// The new password, NUL-free
    pub password: String,
    /// Whether the existing keys stay in the database
    pub keepold: bool,
}

/// A native key randomization on one parsed principal.
#[derive(Debug)]
pub struct RandkeyCall {
    /// The native symbol to call: the plain randomization or, when old keys
    /// are kept, the extended variant
    pub symbol: &'static str,
    /// The server handle the call runs against
    pub server_handle: u64,
    /// The principal name, NUL-free, still to be parsed natively
    pub name: String,
    /// Whether the existing keys stay in the database
    pub keepold: bool,
}

/// A native listing call returning an array of names that must be copied out
/// and then released.
#[derive(Debug)]
pub struct NameListCall {
    /// The listing symbol
    pub symbol: &'static str,
    /// The symbol that releases the fetched name list afterwards
    pub free_symbol: &'static str,
    /// The server handle the call runs against
    pub server_handle: u64,
    /// The glob expression, NUL-free
    pub query: String,
}

/// A native read of the session's privileges.
#[derive(Debug)]
pub struct GetPrivsCall {
    /// The native symbol to call
    pub symbol: &'static str,
    /// The server handle the call runs against
    pub server_handle: u64,
}

/// The flush-then-destroy teardown of a live server handle, made under the
/// session lifecycle lock.
#[derive(Debug)]
pub struct TeardownCall {
    /// The flush symbol, called first
    pub flush_symbol: &'static str,
    /// The destroy symbol, called second
    pub destroy_symbol: &'static str,
    /// The server handle being torn down
    pub server_handle: u64,
    /// The variant whose routines must run
    pub variant: KAdm5Variant,
}

impl KAdmin {
    /// Map a kadm5 status code this session's native library reported to a
    /// result, through the variant's error space.
    pub fn op_status(&self, code: i64, krb5_message: String) -> (r: Result<(), Error>)
        ensures
            r is Ok <==> code == crate::KADM5_OK,
            r matches Err(e) ==> spec_kadm5_error(self.spec_variant(), code, krb5_message@, e),
    {
        kadm5_ret_t_escape_hatch(self.context.variant(), code, krb5_message)
    }

    /// Describe renaming a principal. Both names still go through the native
    /// parse-and-validate step before the call.
    pub fn rename_principal(&self, old_name: &str, new_name: &str) -> (r: Result<
        RenamePrincipalCall,
        Error,
    >)
        ensures
            r is Ok <==> !spec_contains_nul(old_name@) && !spec_contains_nul(new_name@),
            r matches Ok(c) ==> {
                &&& spec_op_symbol(self.spec_variant(), KAdminOp::RenamePrincipal) == Some(
                    c.symbol@,
                )
                &&& c.server_handle == self.spec_server_handle()
                &&& c.old_name@ == old_name@
                &&& c.new_name@ == new_name@
            },
            r matches Err(e) ==> e matches Error::StringConversion,
    {
        if contains_nul(old_name) || contains_nul(new_name) {
            return Err(Error::StringConversion);
        }
        let symbol = match symbol_name(self.context.variant(), KAdminOp::RenamePrincipal) {
            Ok(s) => s,
            Err(_) => unreached(),
        };
        Ok(
            RenamePrincipalCall {
                symbol,
                server_handle: self.server_handle,
                old_name: old_name.to_owned(),
                new_name: new_name.to_owned(),
            },
        )
    }

    /// Describe deleting a principal. The name still goes through the native
    /// parse-and-validate step before the call.
    pub fn delete_principal(&self, name: &str) -> (r: Result<DeletePrincipalCall, Error>)
        ensures
            r is Ok <==> !spec_contains_nul(name@),
            r matches Ok(c) ==> {
                &&& spec_op_symbol(self.spec_variant(), KAdminOp::DeletePrincipal) == Some(
                    c.symbol@,
                )
                &&& c.server_handle == self.spec_server_handle()
                &&& c.name@ == name@
            },
            r matches Err(e) ==> e matches Error::StringConversion,
    {
        if contains_nul(name) {
            return Err(Error::StringConversion);
        }
        let symbol = match symbol_name(self.context.variant(), KAdminOp::DeletePrincipal) {
            Ok(s) => s,
            Err(_) => unreached(),
        };
        Ok(
            DeletePrincipalCall {
                symbol,
                server_handle: self.server_handle,
                name: name.to_owned(),
            },
        )
    }

    /// Describe changing a principal's password. Keeping the existing keys
    /// routes the call to the extended native entry point.
    pub fn principal_change_password(&self, name: &str, password: &str, keepold: Option<bool>) -> (r: Result<ChangePasswordCall, Error>)
        ensures
            r is Ok <==> !spec_contains_nul(name@) && !spec_contains_nul(password@),
            r matches Ok(c) ==> {
                &&& c.keepold == (keepold matches Some(true))
                &&& spec_op_symbol(
                    self.spec_variant(),
                    if keepold matches Some(true) {
                        KAdminOp::ChpassPrincipal3
                    } else {
                        KAdminOp::ChpassPrincipal
                    },
                ) == Some(c.symbol@)
                &&& c.server_handle == self.spec_server_handle()
                &&& c.name@ == name@
                &&& c.password@ == password@
            },
            r matches Err(e) ==> e matches Error::StringConversion,
    {
        if contains_nul(name) || contains_nul(password) {
            return Err(Error::StringConversion);
        }
        let keepold = match keepold {
            Some(k) => k,
            None => false,
        };
        let op = if keepold {
            KAdminOp::ChpassPrincipal3
        } else {
            KAdminOp::ChpassPrincipal
        };
        let symbol = match symbol_name(self.context.variant(), op) {
            Ok(s) => s,
            Err(_) => unreached(),
        };
        Ok(
            ChangePasswordCall {
                symbol,
                server_handle: self.server_handle,
                name: name.to_owned(),
                password: password.to_owned(),
                keepold,
            },
        )
    }

    /// Describe setting a principal's key to a random value. Keeping the
    /// existing keys routes the call to the extended native entry point.
    pub fn principal_randkey(&self, name: &str, keepold: Option<bool>) -> (r: Result<
        RandkeyCall,
        Error,
    >)
        ensures
            r is Ok <==> !spec_contains_nul(name@),
            r matches Ok(c) ==> {
                &&& c.keepold == (keepold matches Some(true))
                &&& spec_op_symbol(
                    self.spec_variant(),
                    if keepold matches Some(true) {
                        KAdminOp::RandkeyPrincipal3
                    } else {
                        KAdminOp::RandkeyPrincipal
                    },
                ) == Some(c.symbol@)
                &&& c.server_handle == self.spec_server_handle()
                &&& c.name@ == name@
            },
            r matches Err(e) ==> e matches Error::StringConversion,
    {
        if contains_nul(name) {
            return Err(Error::StringConversion);
        }
        let keepold = match keepold {
            Some(k) => k,
            None => false,
        };
        let op = if keepold {
            KAdminOp::RandkeyPrincipal3
        } else {
            KAdminOp::RandkeyPrincipal
        };
        let symbol = match symbol_name(self.context.variant(), op) {
            Ok(s) => s,
            Err(_) => unreached(),
        };
        Ok(
            RandkeyCall {
                symbol,
                server_handle: self.server_handle,
                name: name.to_owned(),
                keepold,
            },
        )
    }

    /// Describe fetching the string attributes of a principal.
    ///
    /// The underlying symbol exists only in MIT libraries; against a
    /// Heimdal-family session this fails with a library mismatch and the
    /// native call is never attempted.
    pub fn principal_get_strings(&self, name: &str) -> (r: Result<GetStringsCall, Error>)
        ensures
            r is Ok <==> self.spec_variant().spec_is_mit() && !spec_contains_nul(name@),
            r matches Ok(c) ==> {
                &&& spec_op_symbol(self.spec_variant(), KAdminOp::GetStrings) == Some(c.symbol@)
                &&& spec_op_symbol(self.spec_variant(), KAdminOp::FreeStrings) == Some(
                    c.free_symbol@,
                )
                &&& c.server_handle == self.spec_server_handle()
                &&& c.name@ == name@
            },
            !self.spec_variant().spec_is_mit() ==> (r matches Err(e) && e
                matches Error::LibraryMismatch(_)),
            self.spec_variant().spec_is_mit() ==> (r matches Err(e) ==> e
                matches Error::StringConversion),
    {
        let symbol = match symbol_name(self.context.variant(), KAdminOp::GetStrings) {
            Ok(s) => s,
            Err(e) => {
                return Err(e);
            },
        };
        let free_symbol = match symbol_name(self.context.variant(), KAdminOp::FreeStrings) {
            Ok(s) => s,
            Err(_) => unreached(),
        };
        if contains_nul(name) {
            return Err(Error::StringConversion);
        }
        Ok(
            GetStringsCall {
                symbol,
                free_symbol,
                server_handle: self.server_handle,
                name: name.to_owned(),
            },
        )
    }

    /// Turn the fetched string attributes into the result, after the raw
    /// array was copied into owned pairs and released.
    pub fn principal_get_strings_result(
        &self,
        code: i64,
        strings: Vec<(String, String)>,
        krb5_message: String,
    ) -> (r: Result<Vec<(String, String)>, Error>)
        ensures
            r is Ok <==> code == crate::KADM5_OK,
            r matches Ok(v) ==> v == strings,
            r matches Err(e) ==> spec_kadm5_error(self.spec_variant(), code, krb5_message@, e),
    {
        match kadm5_ret_t_escape_hatch(self.context.variant(), code, krb5_message) {
            Ok(()) => Ok(strings),
            Err(e) => Err(e),
        }
    }

    /// Describe setting (or, with an absent value, removing) one string
    /// attribute on a principal.
    ///
    /// The underlying symbol exists only in MIT libraries; against a
    /// Heimdal-family session this fails with a library mismatch and the
    /// native call is never attempted.
    pub fn principal_set_string(&self, name: &str, key: &str, value: Option<&str>) -> (r: Result<
        SetStringCall,
        Error,
    >)
        ensures
            r is Ok <==> {
                &&& self.spec_variant().spec_is_mit()
                &&& !spec_contains_nul(name@)
                &&& !spec_contains_nul(key@)
                &&& (value matches Some(v) ==> !spec_contains_nul(v@))
            },
            r matches Ok(c) ==> {
                &&& spec_op_symbol(self.spec_variant(), KAdminOp::SetString) == Some(c.symbol@)
                &&& c.server_handle == self.spec_server_handle()
                &&& c.name@ == name@
                &&& c.key@ == key@
                &&& match value {
                    Some(v) => c.value matches Some(cv) && cv@ == v@,
                    None => c.value is None,
                }
            },
            !self.spec_variant().spec_is_mit() ==> (r matches Err(e) && e
                matches Error::LibraryMismatch(_)),
            self.spec_variant().spec_is_mit() ==> (r matches Err(e) ==> e
                matches Error::StringConversion),
    {
        let symbol = match symbol_name(self.context.variant(), KAdminOp::SetString) {
            Ok(s) => s,
            Err(e) => {
                return Err(e);
            },
        };
        if contains_nul(name) || contains_nul(key) {
            return Err(Error::StringConversion);
        }
        let value = match value {
            Some(v) => {
                if contains_nul(v) {
                    return Err(Error::StringConversion);
                }
                Some(v.to_owned())
            },
            None => None,
        };
        Ok(
            SetStringCall {
                symbol,
                server_handle: self.server_handle,
                name: name.to_owned(),
                key: key.to_owned(),
                value,
            },
        )
    }

    /// Describe listing principal names by glob expression; every name
    /// matching the expression is returned, and an absent query lists all.
    pub fn list_principals(&self, query: Option<&str>) -> (r: Result<NameListCall, Error>)
        ensures
            r is Ok <==> !spec_contains_nul(
                match spec_opt_view(query) {
                    Some(q) => q,
                    None => "*"@,
                },
            ),
            r matches Ok(c) ==> {
                &&& spec_op_symbol(self.spec_variant(), KAdminOp::GetPrincipals) == Some(c.symbol@)
                &&& spec_op_symbol(self.spec_variant(), KAdminOp::FreeNameList) == Some(
                    c.free_symbol@,
                )
                &&& c.server_handle == self.spec_server_handle()
                &&& c.query@ == match spec_opt_view(query) {
                    Some(q) => q,
                    None => "*"@,
                }
            },
            r matches Err(e) ==> e matches Error::StringConversion,
    {
        let chosen = match query {
            Some(q) => q,
            None => "*",
        };
        if contains_nul(chosen) {
            return Err(Error::StringConversion);
        }
        let symbol = match symbol_name(self.context.variant(), KAdminOp::GetPrincipals) {
            Ok(s) => s,
            Err(_) => unreached(),
        };
        let free_symbol = match symbol_name(self.context.variant(), KAdminOp::FreeNameList) {
            Ok(s) => s,
            Err(_) => unreached(),
        };
        Ok(
            NameListCall {
                symbol,
                free_symbol,
                server_handle: self.server_handle,
                query: chosen.to_owned(),
            },
        )
    }

    /// Describe listing policy names by glob expression.
    ///
    /// Policy listing exists on MIT and Heimdal server-side libraries;
    /// against a Heimdal client session this fails with a library mismatch
    /// and the native call is never attempted.
    pub fn list_policies(&self, query: Option<&str>) -> (r: Result<NameListCall, Error>)
        ensures
            r is Ok <==> {
                &&& (self.spec_variant().spec_is_mit() || !self.spec_variant().spec_is_client())
                &&& !spec_contains_nul(
                    match spec_opt_view(query) {
                        Some(q) => q,
                        None => "*"@,
                    },
                )
            },
            r matches Ok(c) ==> {
                &&& spec_op_symbol(self.spec_variant(), KAdminOp::GetPolicies) == Some(c.symbol@)
                &&& spec_op_symbol(self.spec_variant(), KAdminOp::FreeNameList) == Some(
                    c.free_symbol@,
                )
                &&& c.server_handle == self.spec_server_handle()
                &&& c.query@ == match spec_opt_view(query) {
                    Some(q) => q,
                    None => "*"@,
                }
            },
            !(self.spec_variant().spec_is_mit() || !self.spec_variant().spec_is_client()) ==> (r
                matches Err(e) && e matches Error::LibraryMismatch(_)),
            (self.spec_variant().spec_is_mit() || !self.spec_variant().spec_is_client()) ==> (r
                matches Err(e) ==> e matches Error::StringConversion),
    {
        let symbol = match symbol_name(self.context.variant(), KAdminOp::GetPolicies) {
            Ok(s) => s,
            Err(e) => {
                return Err(e);
            },
        };
        let chosen = match query {
            Some(q) => q,
            None => "*",
        };
        if contains_nul(chosen) {
            return Err(Error::StringConversion);
        }
        let free_symbol = match symbol_name(self.context.variant(), KAdminOp::FreeNameList) {
            Ok(s) => s,
            Err(_) => unreached(),
        };
        Ok(
            NameListCall {
                symbol,
                free_symbol,
                server_handle: self.server_handle,
                query: chosen.to_owned(),
            },
        )
    }

    /// Turn a listing outcome into the result, after every returned C string
    /// was copied into an owned string and the raw array released.
    pub fn name_list_result(&self, code: i64, names: Vec<String>, krb5_message: String) -> (r:
        Result<Vec<String>, Error>)
        ensures
            r is Ok <==> code == crate::KADM5_OK,
            r matches Ok(v) ==> v == names,
            r matches Err(e) ==> spec_kadm5_error(self.spec_variant(), code, krb5_message@, e),
    {
        match kadm5_ret_t_escape_hatch(self.context.variant(), code, krb5_message) {
            Ok(()) => Ok(names),
            Err(e) => Err(e),
        }
    }

    /// Describe reading the session's privileges.
    pub fn get_privileges(&self) -> (r: GetPrivsCall)
        ensures
            spec_op_symbol(self.spec_variant(), KAdminOp::GetPrivs) == Some(r.symbol@),
            r.server_handle == self.spec_server_handle(),
    {
        let symbol = match symbol_name(self.context.variant(), KAdminOp::GetPrivs) {
            Ok(s) => s,
            Err(_) => unreached(),
        };
        GetPrivsCall { symbol, server_handle: self.server_handle }
    }

    /// Turn the privileges read into the result.
    pub fn get_privileges_result(&self, code: i64, privs: i64, krb5_message: String) -> (r: Result<
        i64,
        Error,
    >)
        ensures
            r is Ok <==> code == crate::KADM5_OK,
            r matches Ok(v) ==> v == privs,
            r matches Err(e) ==> spec_kadm5_error(self.spec_variant(), code, krb5_message@, e),
    {
        match kadm5_ret_t_escape_hatch(self.context.variant(), code, krb5_message) {
            Ok(()) => Ok(privs),
            Err(e) => Err(e),
        }
    }

    /// The teardown this session needs, or nothing when the native handle is
    /// already gone: a null handle must not reach the native flush or
    /// destroy routine, so dropping such a session is a guarded no-op.
    pub fn teardown_request(&self) -> (r: Option<TeardownCall>)
        ensures
            r is None <==> self.spec_server_handle() == 0,
            r matches Some(t) ==> {
                &&& spec_op_symbol(self.spec_variant(), KAdminOp::Flush) == Some(t.flush_symbol@)
                &&& spec_op_symbol(self.spec_variant(), KAdminOp::Destroy) == Some(
                    t.destroy_symbol@,
                )
                &&& t.server_handle == self.spec_server_handle()
                &&& t.variant == self.spec_variant()
            },
    {
        if self.server_handle == 0 {
            return None;
        }
        let flush_symbol = match symbol_name(self.context.variant(), KAdminOp::Flush) {
            Ok(s) => s,
            Err(_) => unreached(),
        };
        let destroy_symbol = match symbol_name(self.context.variant(), KAdminOp::Destroy) {
            Ok(s) => s,
            Err(_) => unreached(),
        };
        Some(
            TeardownCall {
                flush_symbol,
                destroy_symbol,
                server_handle: self.server_handle,
                variant: self.context.variant(),
            },
        )
    }
}

/// Decide how the credentials cache is obtained: resolve `ccache_name` when
/// one is given, else open the default cache.
pub fn ccache_request(variant: KAdm5Variant, ccache_name: Option<&str>) -> (r: Result<
    CcacheRequest,
    Error,
>)
    ensures
        r is Ok <==> match spec_opt_view(ccache_name) {
            Some(n) => !spec_contains_nul(n),
            None => true,
        },
        r matches Ok(c) ==> match spec_opt_view(ccache_name) {
            Some(n) => (c.name matches Some(m) && m@ == n) && spec_op_symbol(
                variant,
                KAdminOp::CcResolve,
            ) == Some(c.symbol@),
            None => c.name is None && spec_op_symbol(variant, KAdminOp::CcDefault) == Some(
                c.symbol@,
            ),
        },
        r matches Err(e) ==> e matches Error::StringConversion,
{
    match ccache_name {
        Some(name) => {
            if contains_nul(name) {
                return Err(Error::StringConversion);
            }
            let symbol = match symbol_name(variant, KAdminOp::CcResolve) {
                Ok(s) => s,
                Err(_) => unreached(),
            };
            Ok(CcacheRequest { symbol, name: Some(name.to_owned()) })
        },
        None => {
            let symbol = match symbol_name(variant, KAdminOp::CcDefault) {
                Ok(s) => s,
                Err(_) => unreached(),
            };
            Ok(CcacheRequest { symbol, name: None })
        },
    }
}

} // verus!
