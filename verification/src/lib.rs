//! Verified core of a proxy layer that lets a foreign host runtime work with
//! two collections kept in a versioned, merkelized key-value store: a
//! single-value entry and a proof list.
//!
//! The host never sees a native object. It holds opaque handles, and every
//! call it makes names one. This crate decides, for each such call, whether
//! the handle is live, whether it names a resource of the right kind, whether
//! the operation may change a resource attached to an immutable view, and how
//! arguments and results cross the boundary. The store itself is driven by
//! the caller of this crate.
pub mod access;
pub mod fault;
pub mod guard;
pub mod handle;
pub mod marshal;
pub mod proof_list;
