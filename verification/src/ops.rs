//! Argument and result pairs, one per capability of the operation set.
//!
//! These carry no behaviour: arguments are built by the caller, results by
//! the responding accessor.

use vstd::prelude::*;

use crate::error::ErrorKind;

verus! {

/// Arguments of `create`.
#[derive(Clone, Copy, Debug, PartialEq, Eq, Structural, Default)]
pub struct OpCreate {}

/// Arguments of `read`: a byte range within the entry.
#[derive(Clone, Copy, Debug, PartialEq, Eq, Structural)]
pub struct OpRead {
    /// The first byte to read.
    pub offset: usize,
    /// How many bytes to read at most; `None` reads to the end.
    pub size: Option<usize>,
}

/// Arguments of `write`.
#[derive(Clone, Copy, Debug, PartialEq, Eq, Structural, Default)]
pub struct OpWrite {}

/// Arguments of `stat`.
#[derive(Clone, Copy, Debug, PartialEq, Eq, Structural, Default)]
pub struct OpStat {}

/// Arguments of `delete`.
#[derive(Clone, Copy, Debug, PartialEq, Eq, Structural, Default)]
pub struct OpDelete {}

/// Arguments of `list`.
#[derive(Clone, Copy, Debug, PartialEq, Eq, Structural, Default)]
pub struct OpList {}

/// Arguments of `scan`.
#[derive(Clone, Copy, Debug, PartialEq, Eq, Structural, Default)]
pub struct OpScan {}

/// Arguments of `presign`: for how long the handed-out reference stays valid.
#[derive(Clone, Copy, Debug, PartialEq, Eq, Structural)]
pub struct OpPresign {
    /// Validity of the presigned reference, in seconds.
    pub expires_secs: u64,
}

/// One sub-operation of a batch.
#[derive(Clone, Debug, PartialEq, Eq)]
pub enum BatchOperation {
    /// Create an empty entry at the path.
    Create(String),
    /// Delete the entry at the path.
    Delete(String),
}

/// Arguments of `batch`: several mutating sub-operations in one call.
#[derive(Clone, Debug, PartialEq, Eq, Default)]
pub struct OpBatch {
    /// The sub-operations, applied first to last.
    pub ops: Vec<BatchOperation>,
}

/// Result of `create`.
#[derive(Clone, Copy, Debug, PartialEq, Eq, Structural, Default)]
pub struct RpCreate {}

/// Result of `read`, beside the readable-stream handle.
#[derive(Clone, Copy, Debug, PartialEq, Eq, Structural)]
pub struct RpRead {
    /// How many bytes the handed-out stream will yield.
    pub size: u64,
}

/// Result of `write` and of closing the writable sink.
#[derive(Clone, Copy, Debug, PartialEq, Eq, Structural)]
pub struct RpWrite {
    /// How many bytes were committed; zero when the sink was just opened.
    pub written: u64,
}

/// Result of `stat`.
#[derive(Clone, Copy, Debug, PartialEq, Eq, Structural)]
pub struct RpStat {
    /// Length in bytes of the addressed entry.
    pub content_length: u64,
}

/// Result of `delete`.
#[derive(Clone, Copy, Debug, PartialEq, Eq, Structural, Default)]
pub struct RpDelete {}

/// Result of `list`, beside the pagination-cursor handle.
#[derive(Clone, Copy, Debug, PartialEq, Eq, Structural, Default)]
pub struct RpList {}

/// Result of `scan`, beside the pagination-cursor handle.
#[derive(Clone, Copy, Debug, PartialEq, Eq, Structural, Default)]
pub struct RpScan {}

/// Result of `presign`: a reference to the entry that stays valid for a
/// while without further authorization.
#[derive(Clone, Debug, PartialEq, Eq)]
pub struct RpPresign {
    /// The path the reference addresses.
    pub path: String,
    /// Validity in seconds.
    pub expires_secs: u64,
}

/// Outcome of one sub-operation of a batch.
#[derive(Clone, Debug, PartialEq, Eq)]
pub struct BatchResult {
    /// The path of the sub-operation this outcome belongs to.
    pub path: String,
    /// `None` when the sub-operation succeeded, otherwise its failure kind.
    pub error: Option<ErrorKind>,
}

impl View for BatchResult {
    type V = (Seq<char>, Option<ErrorKind>);

    open spec fn view(&self) -> (Seq<char>, Option<ErrorKind>) {
        (self.path@, self.error)
    }
}

/// Result of `batch`: one outcome per sub-operation, in input order.
#[derive(Clone, Debug, PartialEq, Eq, Default)]
pub struct RpBatch {
    /// The per-item outcomes, in the order of the sub-operations.
    pub results: Vec<BatchResult>,
}

/// One entry of a listing.
#[derive(Clone, Debug, PartialEq, Eq)]
pub struct Entry {
    /// The path of the listed entry.
    pub path: String,
}

impl View for Entry {
    type V = Seq<char>;

    open spec fn view(&self) -> Seq<char> {
        self.path@
    }
}

} // verus!
