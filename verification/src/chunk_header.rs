//! The 8-byte header that opens every chunk: a 2-byte type tag, the
//! header size and the total chunk size, all little-endian.  The two
//! sizes must each be at least 8 bytes (the size of this header) and the
//! total size must not be smaller than the header size.

use vstd::prelude::*;

use crate::chunk_types::{chunk_type_code, spec_parse_block_type, ChunkType};
use crate::cursor::{can_read, le16, le32, AxmlCursor};
use crate::error::FormatError;

verus! {

/// Header that appears at the beginning of every chunk.
#[derive(Debug, Clone, Copy, PartialEq, Eq, Structural)]
pub struct ChunkHeader {
    /// Type identifier for this chunk.
    pub chunk_type: ChunkType,
    /// Size of the chunk header in bytes.
    pub header_size: u16,
    /// Total size of this chunk in bytes.
    pub chunk_size: u32,
}

/// Decoding a chunk header at `pos` either yields the header and the
/// position just past its 8 bytes, or the exact error: a tag failure
/// first, then `UnexpectedChunkType` on a tag other than `expected`,
/// `TruncatedInput` when the size fields run past the buffer, and the
/// three size-invariant errors in the order the sizes are checked.
pub open spec fn spec_chunk_header(b: Seq<u8>, pos: int, expected: ChunkType) -> Result<
    (ChunkHeader, int),
    FormatError,
> {
    match spec_parse_block_type(b, pos) {
        Err(e) => Err(e),
        Ok((t, p)) => {
            if t != expected {
                Err(FormatError::UnexpectedChunkType)
            } else if !can_read(b, p, 2) || !can_read(b, p + 2, 4) {
                Err(FormatError::TruncatedInput)
            } else {
                let hs = le16(b, p);
                let cs = le32(b, p + 2);
                if hs < 8 {
                    Err(FormatError::HeaderTooSmall)
                } else if cs < 8 {
                    Err(FormatError::ChunkTooSmall)
                } else if cs < hs {
                    Err(FormatError::ChunkSmallerThanHeader)
                } else {
                    Ok(
                        (
                            ChunkHeader {
                                chunk_type: expected,
                                header_size: hs as u16,
                                chunk_size: cs as u32,
                            },
                            p + 6,
                        ),
                    )
                }
            }
        },
    }
}

/// The two bytes of a 16-bit value on the wire, little-endian.
pub open spec fn u16_le_bytes(v: int) -> Seq<u8> {
    seq![(v % 0x100) as u8, ((v / 0x100) % 0x100) as u8]
}

/// The four bytes of a 32-bit value on the wire, little-endian.
pub open spec fn u32_le_bytes(v: int) -> Seq<u8> {
    seq![
        (v % 0x100) as u8,
        ((v / 0x100) % 0x100) as u8,
        ((v / 0x10000) % 0x100) as u8,
        ((v / 0x1000000) % 0x100) as u8,
    ]
}

/// The eight header bytes a `ChunkHeader` stands for on the wire.
pub open spec fn spec_encode_header(h: ChunkHeader) -> Seq<u8> {
    u16_le_bytes(chunk_type_code(h.chunk_type)) + u16_le_bytes(h.header_size as int) + u32_le_bytes(
        h.chunk_size as int,
    )
}

/// Reading back a 16-bit little-endian field gives the encoded value.
pub proof fn lemma_le16_round_trip(v: int, rest: Seq<u8>)
    requires
        0 <= v < 0x10000,
    ensures
        le16(u16_le_bytes(v) + rest, 0) == v,
{
    let b = u16_le_bytes(v) + rest;
    assert(b[0] == (v % 0x100) as u8);
    assert(b[1] == ((v / 0x100) % 0x100) as u8);
    assert(v % 0x100 + 0x100 * ((v / 0x100) % 0x100) == v) by (nonlinear_arith)
        requires
            0 <= v < 0x10000,
    ;
}

/// Reading back a 32-bit little-endian field gives the encoded value.
pub proof fn lemma_le32_round_trip(v: int, pre: Seq<u8>, rest: Seq<u8>)
    requires
        0 <= v < 0x100000000,
    ensures
        le32(pre + u32_le_bytes(v) + rest, pre.len() as int) == v,
{
    let b = pre + u32_le_bytes(v) + rest;
    let p = pre.len() as int;
    assert(b[p] == (v % 0x100) as u8);
    assert(b[p + 1] == ((v / 0x100) % 0x100) as u8);
    assert(b[p + 2] == ((v / 0x10000) % 0x100) as u8);
    assert(b[p + 3] == ((v / 0x1000000) % 0x100) as u8);
    assert(v % 0x100 + 0x100 * ((v / 0x100) % 0x100) + 0x10000 * ((v / 0x10000) % 0x100)
        + 0x1000000 * ((v / 0x1000000) % 0x100) == v) by (nonlinear_arith)
        requires
            0 <= v < 0x100000000,
    ;
}

/// Round trip: any header whose sizes satisfy the invariants
/// (`header_size >= 8`, `chunk_size >= header_size` and `chunk_size >= 8`)
/// decodes from its own eight wire bytes, against its own expected type,
/// back to exactly the same three fields, wherever those bytes sit in a
/// larger buffer.
pub proof fn lemma_chunk_header_round_trip(h: ChunkHeader, rest: Seq<u8>)
    requires
        h.header_size >= 8,
        h.chunk_size >= 8,
        h.chunk_size >= h.header_size,
    ensures
        spec_chunk_header(spec_encode_header(h) + rest, 0, h.chunk_type) == Ok::<
            (ChunkHeader, int),
            FormatError,
        >((h, 8)),
{
    let code = chunk_type_code(h.chunk_type);
    crate::chunk_types::lemma_chunk_type_code_round_trip(h.chunk_type);
    let b = spec_encode_header(h) + rest;
    assert(b =~= u16_le_bytes(code) + (u16_le_bytes(h.header_size as int) + (u32_le_bytes(
        h.chunk_size as int,
    ) + rest)));
    lemma_le16_round_trip(code, u16_le_bytes(h.header_size as int) + (u32_le_bytes(
        h.chunk_size as int,
    ) + rest));
    assert(b =~= (u16_le_bytes(code) + u16_le_bytes(h.header_size as int)) + (u32_le_bytes(
        h.chunk_size as int,
    ) + rest));
    let pre2 = u16_le_bytes(code) + u16_le_bytes(h.header_size as int);
    assert(le16(b, 2) == h.header_size) by {
        assert(b[2] == u16_le_bytes(h.header_size as int)[0]);
        assert(b[3] == u16_le_bytes(h.header_size as int)[1]);
        assert(h.header_size as int % 0x100 + 0x100 * ((h.header_size as int / 0x100) % 0x100)
            == h.header_size as int) by (nonlinear_arith)
            requires
                0 <= h.header_size < 0x10000,
        ;
    }
    assert(b =~= pre2 + u32_le_bytes(h.chunk_size as int) + rest);
    lemma_le32_round_trip(h.chunk_size as int, pre2, rest);
}

/// Rejection: when the tag at `pos` matches the expected type but one of
/// the size invariants fails, decoding fails with the specific error for
/// the first violated invariant, even when only one is violated.
pub proof fn lemma_chunk_header_rejects_bad_sizes(b: Seq<u8>, pos: int, expected: ChunkType)
    requires
        can_read(b, pos, 8),
        crate::chunk_types::chunk_type_of(le16(b, pos)) == Some(expected),
    ensures
        le16(b, pos + 2) < 8 ==> spec_chunk_header(b, pos, expected) == Err::<
            (ChunkHeader, int),
            FormatError,
        >(FormatError::HeaderTooSmall),
        le16(b, pos + 2) >= 8 && le32(b, pos + 4) < 8 ==> spec_chunk_header(b, pos, expected)
            == Err::<(ChunkHeader, int), FormatError>(FormatError::ChunkTooSmall),
        le16(b, pos + 2) >= 8 && le32(b, pos + 4) >= 8 && le32(b, pos + 4) < le16(b, pos + 2)
            ==> spec_chunk_header(b, pos, expected) == Err::<(ChunkHeader, int), FormatError>(
            FormatError::ChunkSmallerThanHeader,
        ),
{
}

impl ChunkHeader {
    /// Parse the chunk header at the current position, demanding the tag
    /// `expected_type`.  Exact with respect to [`spec_chunk_header`]; on
    /// success the cursor stands just past the 8 header bytes.
    pub fn from_buff(axml_buff: &mut AxmlCursor, expected_type: ChunkType) -> (r: Result<
        ChunkHeader,
        FormatError,
    >)
        ensures
            final(axml_buff).data == old(axml_buff).data,
            match spec_chunk_header(old(axml_buff).data@, old(axml_buff).pos as int, expected_type) {
                Ok((h, p)) => r == Ok::<ChunkHeader, FormatError>(h) && final(axml_buff).pos == p,
                Err(e) => r == Err::<ChunkHeader, FormatError>(e),
            },
    {
        let chunk_type: ChunkType = ChunkType::parse_block_type(axml_buff)?;

        if chunk_type != expected_type {
            return Err(FormatError::UnexpectedChunkType);
        }
        let header_size: u16 = axml_buff.read_u16()?;
        let chunk_size: u32 = axml_buff.read_u32()?;

        if header_size < 8 {
            return Err(FormatError::HeaderTooSmall);
        }
        if chunk_size < 8 {
            return Err(FormatError::ChunkTooSmall);
        }
        if (chunk_size as u32) < (header_size as u32) {
            return Err(FormatError::ChunkSmallerThanHeader);
        }
        Ok(ChunkHeader { chunk_type, header_size, chunk_size })
    }
}

} // verus!
