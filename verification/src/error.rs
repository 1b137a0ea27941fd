//! Errors reported by the IR consistency pass, and the small value types
//! they carry: storage-purity directions and best-effort source spans.

use vstd::prelude::*;

verus! {

/// A storage-purity direction, as declared on a function or inferred from
/// its body.  Absence of a declared attribute means the function claims to
/// touch no storage at all; there is no explicit "pure" value.
#[derive(Debug, Clone, Copy, PartialEq, Eq, Structural)]
pub enum StorageOperation {
    Reads,
    Writes,
    ReadsWrites,
}

/// A best-effort source location attached to a diagnostic.  A span with
/// `start == end == 0` is the sentinel for an unknown location; verification
/// never fails merely because a span is unavailable.
#[derive(Debug, Clone, Copy, PartialEq, Eq, Structural)]
pub struct SourceSpan {
    pub start: usize,
    pub end: usize,
}

impl SourceSpan {
    /// The sentinel span used when a function carries no usable span record.
    pub open spec fn spec_unknown() -> SourceSpan {
        SourceSpan { start: 0, end: 0 }
    }

    /// Build the sentinel "unknown location" span.
    pub fn unknown() -> (r: SourceSpan)
        ensures
            r == SourceSpan::spec_unknown(),
    {
        SourceSpan { start: 0, end: 0 }
    }
}

/// One inconsistency found in the IR.  Structural errors carry the label of
/// the offending block; storage-purity errors carry the direction at issue
/// and the function's best-effort span.
#[derive(Debug, Clone, PartialEq)]
pub enum IrError {
    /// The last instruction of a live block is not a terminator.
    MissingTerminator(String),
    /// A live block ends in a terminator but holds more than one.
    MisplacedTerminator(String),
    /// The function performs a storage operation but declares no attribute;
    /// the payload is the attribute it would need.
    StorageMissingAttribute(StorageOperation, SourceSpan),
    /// The declared attribute names different directions than the body
    /// exercises; the payload is the attribute that would be correct.
    StorageMismatchedAttribute(StorageOperation, SourceSpan),
    /// The declared attribute claims more directions than the body
    /// exercises; the payload is the unexercised direction.
    StorageUnneededAttribute(StorageOperation, SourceSpan),
}

} // verus!
