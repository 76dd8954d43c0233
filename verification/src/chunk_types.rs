//! Type identifiers for chunks.  Only the ones related to XML documents
//! and the resource table appear here; any other 2-byte tag is a hard
//! decode failure, since the format has no forward-compatible skip rule.

use vstd::prelude::*;

use crate::cursor::{can_read, le16, AxmlCursor};
use crate::error::FormatError;

verus! {

/// Tag values that may open a chunk.
#[derive(Debug, Clone, Copy, PartialEq, Eq, Structural)]
pub enum ChunkType {
    ResNullType,
    ResStringPoolType,
    ResTableType,
    ResXmlType,
    ResXmlStartNamespaceType,
    ResXmlEndNamespaceType,
    ResXmlStartElementType,
    ResXmlEndElementType,
    ResXmlCDataType,
    ResXmlLastChunkType,
    ResXmlResourceMapType,
    ResTablePackageType,
    ResTableTypeType,
    ResTableTypeSpecType,
    ResTableLibraryType,
}

/// The 2-byte tag under which a chunk type appears on the wire.
pub open spec fn chunk_type_code(t: ChunkType) -> int {
    match t {
        ChunkType::ResNullType => 0x0000,
        ChunkType::ResStringPoolType => 0x0001,
        ChunkType::ResTableType => 0x0002,
        ChunkType::ResXmlType => 0x0003,
        ChunkType::ResXmlStartNamespaceType => 0x0100,
        ChunkType::ResXmlEndNamespaceType => 0x0101,
        ChunkType::ResXmlStartElementType => 0x0102,
        ChunkType::ResXmlEndElementType => 0x0103,
        ChunkType::ResXmlCDataType => 0x0104,
        ChunkType::ResXmlLastChunkType => 0x017f,
        ChunkType::ResXmlResourceMapType => 0x0180,
        ChunkType::ResTablePackageType => 0x0200,
        ChunkType::ResTableTypeType => 0x0201,
        ChunkType::ResTableTypeSpecType => 0x0202,
        ChunkType::ResTableLibraryType => 0x0203,
    }
}

/// The chunk type a 2-byte tag stands for, if any.
pub open spec fn chunk_type_of(code: int) -> Option<ChunkType> {
    if code == 0x0000 {
        Some(ChunkType::ResNullType)
    } else if code == 0x0001 {
        Some(ChunkType::ResStringPoolType)
    } else if code == 0x0002 {
        Some(ChunkType::ResTableType)
    } else if code == 0x0003 {
        Some(ChunkType::ResXmlType)
    } else if code == 0x0100 {
        Some(ChunkType::ResXmlStartNamespaceType)
    } else if code == 0x0101 {
        Some(ChunkType::ResXmlEndNamespaceType)
    } else if code == 0x0102 {
        Some(ChunkType::ResXmlStartElementType)
    } else if code == 0x0103 {
        Some(ChunkType::ResXmlEndElementType)
    } else if code == 0x0104 {
        Some(ChunkType::ResXmlCDataType)
    } else if code == 0x017f {
        Some(ChunkType::ResXmlLastChunkType)
    } else if code == 0x0180 {
        Some(ChunkType::ResXmlResourceMapType)
    } else if code == 0x0200 {
        Some(ChunkType::ResTablePackageType)
    } else if code == 0x0201 {
        Some(ChunkType::ResTableTypeType)
    } else if code == 0x0202 {
        Some(ChunkType::ResTableTypeSpecType)
    } else if code == 0x0203 {
        Some(ChunkType::ResTableLibraryType)
    } else {
        None
    }
}

/// Reading a tag yields the chunk type it stands for, or the exact error:
/// `TruncatedInput` when fewer than two bytes remain, `UnknownChunkType`
/// otherwise.  On success and on an unknown tag the cursor has advanced by
/// two bytes.
pub open spec fn spec_parse_block_type(b: Seq<u8>, pos: int) -> Result<
    (ChunkType, int),
    FormatError,
> {
    if !can_read(b, pos, 2) {
        Err(FormatError::TruncatedInput)
    } else {
        match chunk_type_of(le16(b, pos)) {
            Some(t) => Ok((t, pos + 2)),
            None => Err(FormatError::UnknownChunkType(le16(b, pos) as u16)),
        }
    }
}

/// A tag stands for its own chunk type: decoding the code of `t` gives
/// back `t`, for every chunk type.
pub proof fn lemma_chunk_type_code_round_trip(t: ChunkType)
    ensures
        chunk_type_of(chunk_type_code(t)) == Some(t),
{
}

impl ChunkType {
    /// The chunk type a 2-byte tag stands for, if any.
    pub fn from_code(code: u16) -> (r: Option<ChunkType>)
        ensures
            r == chunk_type_of(code as int),
    {
        if code == 0x0000 {
            Some(ChunkType::ResNullType)
        } else if code == 0x0001 {
            Some(ChunkType::ResStringPoolType)
        } else if code == 0x0002 {
            Some(ChunkType::ResTableType)
        } else if code == 0x0003 {
            Some(ChunkType::ResXmlType)
        } else if code == 0x0100 {
            Some(ChunkType::ResXmlStartNamespaceType)
        } else if code == 0x0101 {
            Some(ChunkType::ResXmlEndNamespaceType)
        } else if code == 0x0102 {
            Some(ChunkType::ResXmlStartElementType)
        } else if code == 0x0103 {
            Some(ChunkType::ResXmlEndElementType)
        } else if code == 0x0104 {
            Some(ChunkType::ResXmlCDataType)
        } else if code == 0x017f {
            Some(ChunkType::ResXmlLastChunkType)
        } else if code == 0x0180 {
            Some(ChunkType::ResXmlResourceMapType)
        } else if code == 0x0200 {
            Some(ChunkType::ResTablePackageType)
        } else if code == 0x0201 {
            Some(ChunkType::ResTableTypeType)
        } else if code == 0x0202 {
            Some(ChunkType::ResTableTypeSpecType)
        } else if code == 0x0203 {
            Some(ChunkType::ResTableLibraryType)
        } else {
            None
        }
    }

    /// Read the 2-byte type tag at the current position.
    pub fn parse_block_type(buff: &mut AxmlCursor) -> (r: Result<ChunkType, FormatError>)
        ensures
            final(buff).data == old(buff).data,
            match spec_parse_block_type(old(buff).data@, old(buff).pos as int) {
                Ok((t, p)) => r == Ok::<ChunkType, FormatError>(t) && final(buff).pos == p,
                Err(e) => r == Err::<ChunkType, FormatError>(e),
            },
    {
        let code: u16 = buff.read_u16()?;
        match ChunkType::from_code(code) {
            Some(t) => Ok(t),
            None => Err(FormatError::UnknownChunkType(code)),
        }
    }
}

} // verus!
