//! Form-state synchronisation: the decisions behind restoring what a user
//! typed into a page's form controls and persisting every edit as it happens.
//!
//! The crate holds no handle on a browser or on a store. A host reads the
//! page and the store, hands plain values in, and performs what comes back.

pub mod api;
pub mod capture;
pub mod error;
pub mod keys;
pub mod page;
pub mod restore;
pub mod snapshot;
pub mod storage;
