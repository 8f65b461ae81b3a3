//! Supervision of a sidecar service process: launch arguments, readiness
//! detection on its startup output, the shared slot holding its handle, the
//! startup task's decisions, and cleanup when the application closes.
use vstd::prelude::*;

pub mod config;
pub mod readiness;
pub mod shutdown;
pub mod store;
pub mod supervisor;
pub mod text;

verus! {

} // verus!
