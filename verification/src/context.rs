//! Kerberos contexts: one native context handle, the library it was created
//! through, and a cached default realm.
//!
//! The native init and free calls are foreign and run outside this crate,
//! under the process-wide context lifecycle lock; here their outcomes are
//! plain values. A [`Context`] only ever exists in a fully valid state: a
//! failed native init yields an error, never a context, and teardown always
//! names exactly the library the context was created through.

use vstd::prelude::*;

use crate::error::Error;
use crate::sys::KAdm5Variant;
use crate::sys::KAdminOp;
use crate::sys::Library;
use crate::sys::spec_op_symbol;
use crate::sys::symbol_name;

verus! {

/// A Kerberos context bound to the library that created it.
#[derive(Debug)]
pub struct Context {
    library: Library,
    context: u64,
    default_realm: Option<String>,
}

/// What the native context-init call reported.
#[derive(Debug)]
pub enum ContextInitEvent {
    /// The caller supplied an already-initialized native context; no native
    /// init call was made and ownership transfers to the wrapper.
    Adopted,
    /// The native init routine ran and reported this outcome.
    Native {
        /// The context handle the routine produced
        handle: u64,
        /// Its status code
        code: i64,
        /// The message fetched for the code (meaningful only on failure)
        message: String,
    },
}

/// The native call that releases a context: made through the same library
/// the context was created with, under the context lifecycle lock.
#[derive(Debug)]
pub struct ContextFreeRequest {
    /// The variant whose free routine must run
    pub variant: KAdm5Variant,
    /// The image the routine's function pointer lives in
    pub image: u64,
    /// Symbol of the free routine for that variant
    pub symbol: &'static str,
    /// The native context handle to release
    pub handle: u64,
}

impl Context {
    /// The variant of the library this context was created through.
    pub closed spec fn spec_variant(&self) -> KAdm5Variant {
        self.library.spec_variant()
    }

    /// The image token of that library.
    pub closed spec fn spec_image(&self) -> u64 {
        self.library.spec_image()
    }

    /// The native context handle.
    pub closed spec fn spec_handle(&self) -> u64 {
        self.context
    }

    /// The cached default realm.
    pub closed spec fn spec_default_realm(&self) -> Option<Seq<char>> {
        match self.default_realm {
            None => None,
            Some(ref s) => Some(s@),
        }
    }

    /// Create a default context from the outcome the native init routine
    /// reported for it.
    pub fn new(library: Library, handle: u64, code: i64, message: String) -> (r: Result<
        Context,
        Error,
    >)
        ensures
            code == crate::KRB5_OK ==> (r matches Ok(c) && c.spec_handle() == handle
                && c.spec_variant() == library.spec_variant() && c.spec_image()
                == library.spec_image() && c.spec_default_realm() is None),
            code != crate::KRB5_OK ==> (r matches Err(Error::Kerberos { code: ec, message: em })
                && ec == code && em@ == message@),
    {
        Self::builder().build(library, ContextInitEvent::Native { handle, code, message })
    }

    /// Construct a new [builder][`ContextBuilder`] for custom contexts.
    pub fn builder() -> (r: ContextBuilder)
        ensures
            r.spec_adopted() is None,
    {
        ContextBuilder { context: None }
    }

    /// The variant of the library this context was created through.
    pub fn variant(&self) -> (r: KAdm5Variant)
        ensures
            r == self.spec_variant(),
    {
        self.library.variant()
    }

    /// The native context handle, for the call sites that use it.
    pub fn handle(&self) -> (r: u64)
        ensures
            r == self.spec_handle(),
    {
        self.context
    }

    /// The cached default realm, if one could be fetched.
    pub fn default_realm(&self) -> (r: Option<&String>)
        ensures
            match r {
                Some(s) => self.spec_default_realm() == Some(s@),
                None => self.spec_default_realm() is None,
            },
    {
        self.default_realm.as_ref()
    }

    /// Record the outcome of the native default-realm fetch. Failure to
    /// obtain a default realm is non-fatal: the field simply stays absent.
    pub fn fill_default_realm(&mut self, realm: Option<String>)
        ensures
            final(self).spec_variant() == old(self).spec_variant(),
            final(self).spec_image() == old(self).spec_image(),
            final(self).spec_handle() == old(self).spec_handle(),
            final(self).spec_default_realm() == match realm {
                None => None::<Seq<char>>,
                Some(ref s) => Some(s@),
            },
    {
        self.default_realm = realm;
    }

    /// The native call that tears this context down: the free routine of
    /// exactly the library the context was created through, applied to
    /// exactly this context's handle.
    pub fn free_request(&self) -> (r: ContextFreeRequest)
        ensures
            r.variant == self.spec_variant(),
            r.image == self.spec_image(),
            r.handle == self.spec_handle(),
            spec_op_symbol(self.spec_variant(), KAdminOp::ContextFree) == Some(r.symbol@),
    {
        let symbol = match symbol_name(self.library.variant(), KAdminOp::ContextFree) {
            Ok(s) => s,
            Err(_) => "krb5_free_context",
        };
        ContextFreeRequest {
            variant: self.library.variant(),
            image: self.library.image(),
            symbol,
            handle: self.context,
        }
    }
}

/// Builder for [`Context`].
#[derive(Debug)]
pub struct ContextBuilder {
    /// A native context supplied by the caller, to adopt instead of creating
    /// a fresh one.
    context: Option<u64>,
}

impl ContextBuilder {
    /// The adopted native context, if one was supplied.
    pub closed spec fn spec_adopted(&self) -> Option<u64> {
        self.context
    }

    /// Adopt an MIT-family native context. It will be freed through the
    /// library passed to [`Self::build`], which must be the one it was
    /// created with.
    pub fn mit_context(self, context: u64) -> (r: Self)
        ensures
            r.spec_adopted() == Some(context),
    {
        ContextBuilder { context: Some(context) }
    }

    /// Adopt a Heimdal-family native context. It will be freed through the
    /// library passed to [`Self::build`], which must be the one it was
    /// created with.
    pub fn heimdal_context(self, context: u64) -> (r: Self)
        ensures
            r.spec_adopted() == Some(context),
    {
        ContextBuilder { context: Some(context) }
    }

    /// Whether building from this builder needs the native context-init
    /// routine to run first (under the context lifecycle lock).
    pub fn needs_native_init(&self) -> (r: bool)
        ensures
            r == (self.spec_adopted() is None),
    {
        self.context.is_none()
    }

    /// Build a [`Context`] from the adopted handle or from the native init
    /// outcome. A failed init aborts before any context value exists; a
    /// successful build owns exactly the handle the event carried and has no
    /// cached realm yet.
    pub fn build(self, library: Library, init: ContextInitEvent) -> (r: Result<Context, Error>)
        requires
            (self.spec_adopted() is Some) <==> (init is Adopted),
        ensures
            match init {
                ContextInitEvent::Adopted => r matches Ok(c) && c.spec_handle()
                    == self.spec_adopted().unwrap() && c.spec_variant() == library.spec_variant()
                    && c.spec_image() == library.spec_image() && c.spec_default_realm() is None,
                ContextInitEvent::Native { handle, code, message } => if code == crate::KRB5_OK {
                    r matches Ok(c) && c.spec_handle() == handle && c.spec_variant()
                        == library.spec_variant() && c.spec_image() == library.spec_image()
                        && c.spec_default_realm() is None
                } else {
                    r matches Err(Error::Kerberos { code: ec, message: em }) && ec == code && em@
                        == message@
                },
            },
    {
        match self.context {
            Some(handle) => Ok(Context { library, context: handle, default_realm: None }),
            None => match init {
                ContextInitEvent::Adopted => unreached(),
                ContextInitEvent::Native { handle, code, message } => {
                    if code == crate::KRB5_OK {
                        Ok(Context { library, context: handle, default_realm: None })
                    } else {
                        Err(Error::Kerberos { code, message })
                    }
                },
            },
        }
    }
}
} // verus!
