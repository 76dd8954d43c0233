//! Error kinds raised while decoding a binary XML document.
//!
//! Every failure is unrecoverable for the document being decoded: chunk
//! sizes are only trusted to locate the next chunk once they have been
//! validated, so a single malformed chunk aborts the whole decode and no
//! partial tree is returned.

use vstd::prelude::*;

verus! {

/// The reason a decode failed.
#[derive(Debug, Clone, Copy, PartialEq, Eq, Structural)]
pub enum FormatError {
    /// A chunk header announced a header size below the 8-byte minimum.
    HeaderTooSmall,
    /// A chunk header announced a total size below the 8-byte minimum.
    ChunkTooSmall,
    /// A chunk header announced a total size below its own header size.
    ChunkSmallerThanHeader,
    /// The 2-byte type tag differed from the type a sub-decoder required.
    UnexpectedChunkType,
    /// The 2-byte type tag matches nothing in the closed set of chunk types.
    UnknownChunkType(u16),
    /// A typed-value tag outside the known set of value types.
    UnknownValueType(u8),
    /// A string-pool index with no backing entry.
    StringIndexOutOfRange,
    /// An attribute namespace with no prior declaration.
    UnresolvedNamespace,
    /// A read past the end of the input buffer.
    TruncatedInput,
    /// A string-pool entry that is not valid UTF-8 or UTF-16.
    InvalidTextEncoding,
    /// A string-pool entry using the long-string length continuation,
    /// which this decoder does not support.
    UnsupportedLongString,
    /// A resource identifier outside the built-in attribute-name table.
    ResourceIdOutOfRange,
    /// An element chunk arriving with no element left open: an
    /// end-element popping beyond the root, or a start-element after
    /// the root has been closed.
    UnbalancedElement,
}

} // verus!
