//! Role, quota and access rules of a membership platform.
//!
//! A manager runs the platform's registry, approves admins from a bounded request queue,
//! and alone creates private and whitelisted instances. Admins create metered instances
//! freely while active; captains spend a replenishable quota on them. Each operation is one
//! atomic transition over the records it is handed: it either succeeds as its contract says
//! or fails with an `ErrorCode` and leaves every record as it was.

pub mod error;
pub mod grants;
pub mod identity;
pub mod instance;
pub mod laws;
pub mod registry;
pub mod requests;
