//! A reactive binding layer between UI components and a remote record store.
//!
//! The crate models the query-state engine of such a binding layer: selectors
//! (compiled read queries), a keyed cache of fetch lifecycles, self-references
//! that let rendered items address their slot in a result list, and the
//! reconciliation rules that splice server-confirmed writes back into the
//! cached lists. All transport and rendering stays outside; the engine works
//! on plain values and is verified.

pub mod cache;
pub mod error;
pub mod id;
pub mod logging;
pub mod props;
pub mod query_state;
pub mod response;
pub mod selector;
pub mod self_ref;
pub mod session;
pub mod text;
pub mod write_ops;
