//! Conversions between portable values and the shapes the native boundary
//! needs: NUL-free strings, 32-bit native timestamps and intervals.

use vstd::prelude::*;

use crate::context::Context;
use crate::error::Error;
use crate::error::krb5_error_code_escape_hatch;
use crate::sys::KAdm5Variant;
use crate::sys::KAdminOp;
use crate::sys::spec_op_symbol;
use crate::sys::symbol_name;

verus! {

/// Whether `s` holds a NUL character, which no C string can carry.
pub open spec fn spec_contains_nul(s: Seq<char>) -> bool {
    exists|i: int| 0 <= i < s.len() && s[i] == '\0'
}

/// Check a string for NUL characters before it is handed to the native
/// boundary as a C string.
pub fn contains_nul(s: &str) -> (r: bool)
    ensures
        r == spec_contains_nul(s@),
{
    let len = s.unicode_len();
    let mut i: usize = 0;
    while i < len
        invariant
            len == s@.len(),
            0 <= i <= len,
            forall|j: int| 0 <= j < i ==> s@[j] != '\0',
        decreases len - i,
    {
        if s.get_char(i) == '\0' {
            return true;
        }
        i += 1;
    }
    false
}

/// The number of whole seconds a `Duration` holds; what
/// `Duration::as_secs` returns.
pub uninterp spec fn duration_whole_seconds(d: core::time::Duration) -> u64;

/// Relies on `core::time::Duration::from_secs`: builds a duration whose
/// whole-seconds part is exactly the given count.
pub assume_specification[ core::time::Duration::from_secs ](secs: u64) -> (r: core::time::Duration)
    ensures
        duration_whole_seconds(r) == secs,
;

/// Relies on `core::time::Duration::as_secs`: returns the duration's whole
/// seconds.
pub assume_specification[ core::time::Duration::as_secs ](d: &core::time::Duration) -> (r: u64)
    ensures
        r == duration_whole_seconds(*d),
;

/// Turn a native interval (seconds; zero means "absent") into a portable
/// duration.
pub fn delta_to_dur(delta: i64) -> (r: Option<core::time::Duration>)
    ensures
        r is None <==> delta == 0,
        delta != 0 ==> (r matches Some(d) && duration_whole_seconds(d) == delta as u64),
{
    if delta == 0 {
        return None;
    }
    Some(core::time::Duration::from_secs(delta as u64))
}

/// Turn a portable duration back into a native interval; absence maps to
/// zero, and a duration too long for the native width is rejected.
pub fn dur_to_delta(dur: Option<core::time::Duration>) -> (r: Result<i32, Error>)
    ensures
        dur is None ==> r == Ok::<i32, Error>(0i32),
        dur matches Some(d) ==> if duration_whole_seconds(d) <= i32::MAX {
            r == Ok::<i32, Error>(duration_whole_seconds(d) as i32)
        } else {
            r matches Err(Error::DateTimeConversion)
        },
{
    match dur {
        None => Ok(0),
        Some(d) => {
            let secs = d.as_secs();
            if secs <= i32::MAX as u64 {
                Ok(secs as i32)
            } else {
                Err(Error::DateTimeConversion)
            }
        },
    }
}

/// Read a native 32-bit timestamp (zero means "absent") as portable unix
/// seconds. The native field is a signed 32-bit value that the protocol
/// treats as unsigned, so values past 2038 come back positive.
pub fn ts_to_unix(ts: i32) -> (r: Option<i64>)
    ensures
        r is None <==> ts == 0,
        ts != 0 ==> r == Some::<i64>((ts as u32) as i64),
{
    if ts == 0 {
        return None;
    }
    Some((ts as u32) as i64)
}

/// The native parse-and-validate sequence for a principal name: parse the
/// text, then immediately render the parsed principal back to surface
/// malformed names early; the rendered text and, on any failure, the parsed
/// principal are released again.
#[derive(Debug)]
pub struct ParseNameCall {
    /// The parse symbol for the live variant
    pub parse_symbol: &'static str,
    /// The render-back symbol used to validate the parse
    pub unparse_symbol: &'static str,
    /// The symbol that releases the rendered text
    pub free_unparsed_symbol: &'static str,
    /// The context handle the calls run against
    pub context_handle: u64,
    /// The name to parse, NUL-free
    pub name: String,
}

/// Describe parsing `name` against `context`, validating the text for the
/// native boundary.
pub fn parse_name_request(context: &Context, name: &str) -> (r: Result<ParseNameCall, Error>)
    ensures
        r is Ok <==> !spec_contains_nul(name@),
        r matches Ok(c) ==> {
            &&& spec_op_symbol(context.spec_variant(), KAdminOp::ParseName) == Some(c.parse_symbol@)
            &&& spec_op_symbol(context.spec_variant(), KAdminOp::UnparseName) == Some(
                c.unparse_symbol@,
            )
            &&& spec_op_symbol(context.spec_variant(), KAdminOp::FreeUnparsedName) == Some(
                c.free_unparsed_symbol@,
            )
            &&& c.context_handle == context.spec_handle()
            &&& c.name@ == name@
        },
        r matches Err(e) ==> e matches Error::StringConversion,
{
    if contains_nul(name) {
        return Err(Error::StringConversion);
    }
    let parse_symbol = match symbol_name(context.variant(), KAdminOp::ParseName) {
        Ok(s) => s,
        Err(_) => unreached(),
    };
    let unparse_symbol = match symbol_name(context.variant(), KAdminOp::UnparseName) {
        Ok(s) => s,
        Err(_) => unreached(),
    };
    let free_unparsed_symbol = match symbol_name(context.variant(), KAdminOp::FreeUnparsedName) {
        Ok(s) => s,
        Err(_) => unreached(),
    };
    Ok(
        ParseNameCall {
            parse_symbol,
            unparse_symbol,
            free_unparsed_symbol,
            context_handle: context.handle(),
            name: name.to_owned(),
        },
    )
}

/// The native call that releases a parsed principal, through the same
/// variant's dispatch arm that created it.
#[derive(Debug)]
pub struct FreePrincipalRequest {
    /// The free symbol for the variant the principal was parsed with
    pub symbol: &'static str,
    /// The context handle the free runs against
    pub context_handle: u64,
    /// The parsed principal to release
    pub raw: u64,
}

/// A parsed principal: a native pointer owned exclusively by this guard,
/// scoped to the context that created it and released through the same
/// variant's dispatch arm.
#[derive(Debug)]
pub struct ParsedName {
    variant: KAdm5Variant,
    context_handle: u64,
    raw: u64,
}

impl ParsedName {
    /// The variant the principal was parsed with.
    pub closed spec fn spec_variant(&self) -> KAdm5Variant {
        self.variant
    }

    /// The context handle the principal is scoped to.
    pub closed spec fn spec_context_handle(&self) -> u64 {
        self.context_handle
    }

    /// The native parsed-principal pointer.
    pub closed spec fn spec_raw(&self) -> u64 {
        self.raw
    }

    /// The native parsed-principal pointer, for the call sites that use it.
    pub fn raw(&self) -> (r: u64)
        ensures
            r == self.spec_raw(),
    {
        self.raw
    }

    /// Build the guard from the outcomes of the parse call and the
    /// validating render-back call. Only a parse that also rendered back
    /// cleanly yields a guard; any failure surfaces as the step's Kerberos
    /// error (the caller still releases the partially parsed principal).
    pub fn from_native(
        context: &Context,
        parse_code: i64,
        parse_message: String,
        raw: u64,
        unparse_code: i64,
        unparse_message: String,
    ) -> (r: Result<ParsedName, Error>)
        ensures
            r is Ok <==> parse_code == crate::KRB5_OK && unparse_code == crate::KRB5_OK,
            r matches Ok(p) ==> {
                &&& p.spec_raw() == raw
                &&& p.spec_variant() == context.spec_variant()
                &&& p.spec_context_handle() == context.spec_handle()
            },
            parse_code != crate::KRB5_OK ==> (r matches Err(Error::Kerberos { code, message })
                && code == parse_code && message@ == parse_message@),
            parse_code == crate::KRB5_OK && unparse_code != crate::KRB5_OK ==> (r matches Err(
                Error::Kerberos { code, message },
            ) && code == unparse_code && message@ == unparse_message@),
    {
        krb5_error_code_escape_hatch(parse_code, parse_message)?;
        krb5_error_code_escape_hatch(unparse_code, unparse_message)?;
        Ok(
            ParsedName {
                variant: context.variant(),
                context_handle: context.handle(),
                raw,
            },
        )
    }

    /// The native call that releases this principal, or nothing when the
    /// parse never produced one: a null pointer must not reach the native
    /// free routine.
    pub fn free_request(&self) -> (r: Option<FreePrincipalRequest>)
        ensures
            r is None <==> self.spec_raw() == 0,
            r matches Some(f) ==> {
                &&& spec_op_symbol(self.spec_variant(), KAdminOp::FreePrincipal) == Some(f.symbol@)
                &&& f.context_handle == self.spec_context_handle()
                &&& f.raw == self.spec_raw()
            },
    {
        if self.raw == 0 {
            return None;
        }
        let symbol = match symbol_name(self.variant, KAdminOp::FreePrincipal) {
            Ok(s) => s,
            Err(_) => unreached(),
        };
        Some(
            FreePrincipalRequest {
                symbol,
                context_handle: self.context_handle,
                raw: self.raw,
            },
        )
    }
}

/// Turn portable unix seconds (or absence) into a native 32-bit timestamp;
/// an instant outside the native width is rejected.
pub fn unix_to_ts(secs: Option<i64>) -> (r: Result<i32, Error>)
    ensures
        secs is None ==> r == Ok::<i32, Error>(0i32),
        secs matches Some(s) ==> if i32::MIN <= s <= i32::MAX {
            r == Ok::<i32, Error>(s as i32)
        } else {
            r matches Err(Error::DateTimeConversion)
        },
{
    match secs {
        None => Ok(0),
        Some(s) => {
            if i32::MIN as i64 <= s && s <= i32::MAX as i64 {
                Ok(s as i32)
            } else {
                Err(Error::DateTimeConversion)
            }
        },
    }
}

} // verus!
