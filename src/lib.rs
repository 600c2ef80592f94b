//! Server-side sessions: resolving a cookie identifier to a record, a
//! two-tier cache and backing-store protocol, and throttled sweeps.

pub mod cache;
pub mod external;
pub mod manager;
pub mod record;
pub mod sweep;
