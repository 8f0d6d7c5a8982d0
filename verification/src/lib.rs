//! A verified key-value adapter for a managed wide-column store, together
//! with a tenant registry that maps each tenant to its adapter.
//!
//! The adapter translates the store-agnostic key-value contract (get, set,
//! delete, paginated key listing, optional expiry) onto the store's item and
//! attribute model: every operation is split into a verified request builder
//! and a verified response decoder, so that the one network round trip per
//! operation sits between two checked halves. The registry tracks which
//! tenant is attached to which adapter and is verified against a map model.

pub mod adapter;
pub mod laws;
pub mod model;
pub mod registry;

pub use model::Attr;
pub use model::AttrVal;
