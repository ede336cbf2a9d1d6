//! Descriptive metadata of a backend or layer.

use vstd::prelude::*;

verus! {

/// The scheme identifying the kind of backend behind an accessor.
#[derive(Clone, Copy, Debug, PartialEq, Eq, Structural)]
pub enum Scheme {
    /// The in-memory backend.
    Memory,
    /// A backend supplied from outside this crate.
    Custom,
}

/// An immutable snapshot of what an accessor is and what it can do.
///
/// Produced on demand by `info`; a plain value with no ownership
/// implications.
#[derive(Clone, Copy, Debug, PartialEq, Eq, Structural)]
pub struct AccessorInfo {
    /// The scheme of the backend at the bottom of the chain.
    pub scheme: Scheme,
    /// The accessor can serve `read`.
    pub can_read: bool,
    /// The accessor can serve `write`.
    pub can_write: bool,
    /// The accessor can serve `list`.
    pub can_list: bool,
    /// The accessor can serve `scan`.
    pub can_scan: bool,
    /// The accessor can serve `batch`.
    pub can_batch: bool,
    /// The accessor can serve `presign`.
    pub can_presign: bool,
}

} // verus!
