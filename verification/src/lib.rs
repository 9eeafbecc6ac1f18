//! A verified core for a kadm5 (Kerberos administration) binding layer.
//!
//! Four ABI-incompatible native libraries (MIT krb5 and Heimdal, each in a
//! client-side RPC and a server-side direct-database flavour) sit behind one
//! uniform API. This crate holds everything that can be decided without
//! touching native memory: the variant registry and its constants, the
//! library-search plan, the per-variant symbol dispatch table, the lifecycle
//! state of contexts and admin sessions, the ownership-bundling guards for
//! config parameters and tagged data, and the mapping of native status codes
//! to structured errors. The unverified shell around this crate performs the
//! actual dynamic loading and foreign calls and feeds their outcomes back in
//! as plain values.

use vstd::prelude::*;

pub mod context;
pub mod conv;
pub mod db_args;
pub mod error;
pub mod kadmin;
pub mod params;
pub mod principal;
pub mod sys;
pub mod tl_data;

pub use context::Context;
pub use db_args::KAdminDbArgs;
pub use error::Error;
pub use kadmin::KAdmin;
pub use kadmin::KAdminApiVersion;
pub use params::Params;
pub use principal::Principal;
pub use sys::KAdm5Variant;
pub use tl_data::TlData;
pub use tl_data::TlDataEntry;

verus! {

/// Sentinel krb5 status code shared by both native families: success.
pub const KRB5_OK: i64 = 0;

/// Sentinel kadm5 status code shared by both native families: success.
pub const KADM5_OK: i64 = 0;

} // verus!
