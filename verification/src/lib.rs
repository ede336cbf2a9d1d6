//! A verified interception mechanism for a pluggable storage-access
//! abstraction.
//!
//! A storage backend exposes a uniform operation set through the [`Accessor`]
//! trait. A [`Layer`] wraps one accessor into another, adding cross-cutting
//! behaviour (counting, tracing, ...) without touching the backend. The
//! [`LayeredAccessor`] trait supplies default forwarding for every operation
//! that does not need interception; the operations that hand out a live
//! resource handle (read, write, list, scan) must always be written out by the
//! layer author, because their result carries the adapter's own handle type.
//! A blanket rule turns every layered adapter into a full accessor.
//!
//! Every operation's behaviour is pinned to a mathematical model of the store
//! (a map from paths to byte sequences), so forwarding correctness and
//! composition laws are proved, not just tested.
//!
//! [`Accessor`]: accessor::Accessor
//! [`Layer`]: layer::Layer
//! [`LayeredAccessor`]: layer::LayeredAccessor

pub mod accessor;
pub mod error;
pub mod handles;
pub mod info;
pub mod laws;
pub mod layer;
pub mod layers;
pub mod memory;
pub mod model;
pub mod ops;
pub mod paths;
