//! Principals in portable form.
//!
//! The native principal entry is a pointer-heavy struct; the boundary copies
//! its scalars and strings out as plain values, and this module converts
//! those into the portable shape: absent timestamps and intervals become
//! `None`, native 32-bit seconds widen through the unsigned reading, and
//! intervals become durations.

use vstd::prelude::*;

use crate::conv::delta_to_dur;
use crate::conv::duration_whole_seconds;
use crate::conv::ts_to_unix;
use crate::tl_data::TlData;

verus! {

/// The plain values the boundary copies out of one native principal entry.
#[derive(Debug)]
pub struct RawPrincipalEntry {
    /// The principal's rendered name
    pub name: String,
    /// When the principal expires (native timestamp; zero = never)
    pub princ_expire_time: i32,
    /// When the password was last changed (native timestamp)
    pub last_pwd_change: i32,
    /// When the password expires (native timestamp)
    pub pw_expiration: i32,
    /// Maximum ticket life (native interval; zero = absent)
    pub max_life: i32,
    /// The rendered name of the last modifier, when one is recorded
    pub modified_by: Option<String>,
    /// When the principal was last modified (native timestamp)
    pub mod_date: i32,
    /// Attribute flags
    pub attributes: i32,
    /// Current key version number
    pub kvno: u32,
    /// Master key version number
    pub mkvno: u32,
    /// The associated policy, when one is set
    pub policy: Option<String>,
    /// Extra attributes
    pub aux_attributes: i64,
    /// Maximum renewable ticket life (native interval)
    pub max_renewable_life: i32,
    /// When the last successful authentication occurred (native timestamp)
    pub last_success: i32,
    /// When the last failed authentication occurred (native timestamp)
    pub last_failed: i32,
    /// Number of failed authentication attempts
    pub fail_auth_count: u32,
    /// The principal's tagged data, already walked out of the native chain
    pub tl_data: TlData,
}

/// How one native timestamp reads back portably: zero is absent, everything
/// else is the unsigned 32-bit value as unix seconds.
pub open spec fn spec_portable_ts(ts: i32) -> Option<i64> {
    if ts == 0 {
        None
    } else {
        Some((ts as u32) as i64)
    }
}

/// A kadm5 principal in portable form.
#[derive(Debug)]
pub struct Principal {
    name: String,
    expire_time: Option<i64>,
    last_password_change: Option<i64>,
    password_expiration: Option<i64>,
    max_life: Option<core::time::Duration>,
    modified_by: Option<String>,
    modified_at: Option<i64>,
    attributes: i32,
    kvno: u32,
    mkvno: u32,
    policy: Option<String>,
    aux_attributes: i64,
    max_renewable_life: Option<core::time::Duration>,
    last_success: Option<i64>,
    last_failed: Option<i64>,
    fail_auth_count: u32,
    tl_data: TlData,
}

impl Principal {
    /// Convert one copied-out native entry into portable form.
    pub fn from_raw(entry: RawPrincipalEntry) -> (r: Principal)
        ensures
            r.spec_name() == entry.name@,
            r.spec_expire_time() == spec_portable_ts(entry.princ_expire_time),
            r.spec_last_password_change() == spec_portable_ts(entry.last_pwd_change),
            r.spec_password_expiration() == spec_portable_ts(entry.pw_expiration),
            r.spec_max_life() is Some <==> entry.max_life != 0,
            (r.spec_max_life() matches Some(d) ==> duration_whole_seconds(d) == (
            entry.max_life as i64) as u64),
            r.spec_modified_at() == spec_portable_ts(entry.mod_date),
            r.spec_attributes() == entry.attributes,
            r.spec_kvno() == entry.kvno,
            r.spec_mkvno() == entry.mkvno,
            r.spec_aux_attributes() == entry.aux_attributes,
            r.spec_max_renewable_life() is Some <==> entry.max_renewable_life != 0,
            (r.spec_max_renewable_life() matches Some(d) ==> duration_whole_seconds(d) == (
            entry.max_renewable_life as i64) as u64),
            r.spec_last_success() == spec_portable_ts(entry.last_success),
            r.spec_last_failed() == spec_portable_ts(entry.last_failed),
            r.spec_fail_auth_count() == entry.fail_auth_count,
            match entry.modified_by {
                Some(ref m) => r.spec_modified_by() == Some(m@),
                None => r.spec_modified_by() is None,
            },
            match entry.policy {
                Some(ref p) => r.spec_policy() == Some(p@),
                None => r.spec_policy() is None,
            },
            r.spec_tl_data() == entry.tl_data@,
    {
        Principal {
            name: entry.name,
            expire_time: ts_to_unix(entry.princ_expire_time),
            last_password_change: ts_to_unix(entry.last_pwd_change),
            password_expiration: ts_to_unix(entry.pw_expiration),
            max_life: delta_to_dur(entry.max_life as i64),
            modified_by: entry.modified_by,
            modified_at: ts_to_unix(entry.mod_date),
            attributes: entry.attributes,
            kvno: entry.kvno,
            mkvno: entry.mkvno,
            policy: entry.policy,
            aux_attributes: entry.aux_attributes,
            max_renewable_life: delta_to_dur(entry.max_renewable_life as i64),
            last_success: ts_to_unix(entry.last_success),
            last_failed: ts_to_unix(entry.last_failed),
            fail_auth_count: entry.fail_auth_count,
            tl_data: entry.tl_data,
        }
    }

    /// The principal's name, as seen by specifications.
    pub closed spec fn spec_name(&self) -> Seq<char> {
        self.name@
    }

    /// When the principal expires.
    pub closed spec fn spec_expire_time(&self) -> Option<i64> {
        self.expire_time
    }

    /// When the password was last changed.
    pub closed spec fn spec_last_password_change(&self) -> Option<i64> {
        self.last_password_change
    }

    /// When the password expires.
    pub closed spec fn spec_password_expiration(&self) -> Option<i64> {
        self.password_expiration
    }

    /// Maximum ticket life.
    pub closed spec fn spec_max_life(&self) -> Option<core::time::Duration> {
        self.max_life
    }

    /// Who last modified the principal.
    pub closed spec fn spec_modified_by(&self) -> Option<Seq<char>> {
        match self.modified_by {
            None => None,
            Some(ref s) => Some(s@),
        }
    }

    /// When the principal was last modified.
    pub closed spec fn spec_modified_at(&self) -> Option<i64> {
        self.modified_at
    }

    /// Attribute flags.
    pub closed spec fn spec_attributes(&self) -> i32 {
        self.attributes
    }

    /// Current key version number.
    pub closed spec fn spec_kvno(&self) -> u32 {
        self.kvno
    }

    /// Master key version number.
    pub closed spec fn spec_mkvno(&self) -> u32 {
        self.mkvno
    }

    /// The associated policy.
    pub closed spec fn spec_policy(&self) -> Option<Seq<char>> {
        match self.policy {
            None => None,
            Some(ref s) => Some(s@),
        }
    }

    /// Extra attributes.
    pub closed spec fn spec_aux_attributes(&self) -> i64 {
        self.aux_attributes
    }

    /// Maximum renewable ticket life.
    pub closed spec fn spec_max_renewable_life(&self) -> Option<core::time::Duration> {
        self.max_renewable_life
    }

    /// When the last successful authentication occurred.
    pub closed spec fn spec_last_success(&self) -> Option<i64> {
        self.last_success
    }

    /// When the last failed authentication occurred.
    pub closed spec fn spec_last_failed(&self) -> Option<i64> {
        self.last_failed
    }

    /// Number of failed authentication attempts.
    pub closed spec fn spec_fail_auth_count(&self) -> u32 {
        self.fail_auth_count
    }

    /// The tagged data, as seen by specifications.
    pub closed spec fn spec_tl_data(&self) -> Seq<(i16, Seq<u8>)> {
        self.tl_data@
    }

    /// The principal name.
    pub fn name(&self) -> (r: &str)
        ensures
            r@ == self.spec_name(),
    {
        self.name.as_str()
    }

    /// Last principal to modify this principal.
    pub fn modified_by(&self) -> (r: Option<&str>)
        ensures
            match r {
                Some(s) => self.spec_modified_by() == Some(s@),
                None => self.spec_modified_by() is None,
            },
    {
        match &self.modified_by {
            Some(s) => Some(s.as_str()),
            None => None,
        }
    }

    /// Associated policy.
    pub fn policy(&self) -> (r: Option<&str>)
        ensures
            match r {
                Some(s) => self.spec_policy() == Some(s@),
                None => self.spec_policy() is None,
            },
    {
        match &self.policy {
            Some(s) => Some(s.as_str()),
            None => None,
        }
    }

    /// TL-data.
    pub fn tl_data(&self) -> (r: &TlData)
        ensures
            r@ == self.spec_tl_data(),
    {
        &self.tl_data
    }

    /// When the principal expires, as unix seconds.
    pub fn expire_time(&self) -> (r: Option<i64>)
        ensures
            r == self.spec_expire_time(),
    {
        self.expire_time
    }

    /// When the password expires, as unix seconds.
    pub fn password_expiration(&self) -> (r: Option<i64>)
        ensures
            r == self.spec_password_expiration(),
    {
        self.password_expiration
    }

    /// When the password was last changed, as unix seconds.
    pub fn last_password_change(&self) -> (r: Option<i64>)
        ensures
            r == self.spec_last_password_change(),
    {
        self.last_password_change
    }

    /// Maximum ticket life.
    pub fn max_life(&self) -> (r: Option<core::time::Duration>)
        ensures
            r == self.spec_max_life(),
    {
        self.max_life
    }

    /// Maximum renewable ticket life.
    pub fn max_renewable_life(&self) -> (r: Option<core::time::Duration>)
        ensures
            r == self.spec_max_renewable_life(),
    {
        self.max_renewable_life
    }

    /// When the principal was last modified, as unix seconds.
    pub fn modified_at(&self) -> (r: Option<i64>)
        ensures
            r == self.spec_modified_at(),
    {
        self.modified_at
    }

    /// When the last successful authentication occurred, as unix seconds.
    pub fn last_success(&self) -> (r: Option<i64>)
        ensures
            r == self.spec_last_success(),
    {
        self.last_success
    }

    /// When the last failed authentication occurred, as unix seconds.
    pub fn last_failed(&self) -> (r: Option<i64>)
        ensures
            r == self.spec_last_failed(),
    {
        self.last_failed
    }

    /// Attribute flags.
    pub fn attributes(&self) -> (r: i32)
        ensures
            r == self.spec_attributes(),
    {
        self.attributes
    }

    /// Current key version number.
    pub fn kvno(&self) -> (r: u32)
        ensures
            r == self.spec_kvno(),
    {
        self.kvno
    }

    /// Master key version number.
    pub fn mkvno(&self) -> (r: u32)
        ensures
            r == self.spec_mkvno(),
    {
        self.mkvno
    }

    /// Extra attributes.
    pub fn aux_attributes(&self) -> (r: i64)
        ensures
            r == self.spec_aux_attributes(),
    {
        self.aux_attributes
    }

    /// Number of failed authentication attempts.
    pub fn fail_auth_count(&self) -> (r: u32)
        ensures
            r == self.spec_fail_auth_count(),
    {
        self.fail_auth_count
    }
}

} // verus!
