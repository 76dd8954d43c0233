//! Resource map decoding.
//!
//! The optional resource-map chunk is an array of 32-bit resource
//! identifiers, one per string-pool entry; its element count is implied
//! by the chunk size.  The companion lookup [`get_resource_string`]
//! resolves a well-known Android attribute identifier to its name via
//! the built-in table.

use vstd::prelude::*;

use crate::chunk_header::{spec_chunk_header, ChunkHeader};
use crate::chunk_types::ChunkType;
use crate::cursor::{can_read, AxmlCursor};
use crate::error::FormatError;
use crate::resource_names::{resource_name_at, spec_resource_name, RESOURCE_NAME_COUNT};
use crate::string_pool::spec_u32_array;

verus! {

use vstd::string::StringExecFns;

/// Chunk holding the array that maps string-pool entries back to
/// resource identifiers.
#[derive(Debug)]
pub struct ResourceMap {
    /// Chunk header.
    pub header: ChunkHeader,
    /// Resource identifiers, in pool order.
    pub resources_id: Vec<u32>,
}

/// Decoding the resource-map chunk at `initial`: its header (which must
/// carry the resource-map tag) followed by `chunk_size / 4 - 2`
/// identifiers.  On success the final position is just past the array.
pub open spec fn spec_resource_map(b: Seq<u8>, initial: int) -> Result<
    (ChunkHeader, Seq<u32>, int),
    FormatError,
> {
    match spec_chunk_header(b, initial, ChunkType::ResXmlResourceMapType) {
        Err(e) => Err(e),
        Ok((h, p)) => {
            let nb = h.chunk_size as int / 4 - 2;
            if !can_read(b, p, 4 * nb) {
                Err(FormatError::TruncatedInput)
            } else {
                Ok((h, spec_u32_array(b, p, nb), p + 4 * nb))
            }
        },
    }
}

impl ResourceMap {
    /// Parse the resource-map chunk whose tag the caller has just read.
    /// Exact with respect to [`spec_resource_map`].
    #[verifier::loop_isolation(false)]
    pub fn from_buff(axml_buff: &mut AxmlCursor) -> (r: Result<ResourceMap, FormatError>)
        requires
            old(axml_buff).pos >= 2,
        ensures
            final(axml_buff).data@ == old(axml_buff).data@,
            match spec_resource_map(old(axml_buff).data@, old(axml_buff).pos - 2) {
                Ok((h, ids, p)) => {
                    &&& r matches Ok(m)
                    &&& m.header == h
                    &&& m.resources_id@ == ids
                    &&& final(axml_buff).pos == p
                },
                Err(e) => r == Err::<ResourceMap, FormatError>(e),
            },
    {
        let ghost b = old(axml_buff).data@;
        let offset: usize = axml_buff.position();
        axml_buff.set_position(offset - 2);
        let ghost initial = offset - 2;

        let header: ChunkHeader = ChunkHeader::from_buff(
            axml_buff,
            ChunkType::ResXmlResourceMapType,
        )?;

        let ghost arr_pos = initial + 8;
        let nb_resources: u32 = (header.chunk_size / 4) - 2;
        let mut resources_id: Vec<u32> = Vec::new();
        let mut i: usize = 0;
        while i < nb_resources as usize
            invariant
                axml_buff.data@ == b,
                i <= nb_resources,
                axml_buff.pos == arr_pos + 4 * i,
                arr_pos + 4 * i <= b.len(),
                resources_id@ =~= spec_u32_array(b, arr_pos as int, i as int),
            decreases nb_resources - i,
        {
            let id: u32 = axml_buff.read_u32()?;
            resources_id.push(id);
            proof {
                assert(resources_id@ =~= spec_u32_array(b, arr_pos as int, i + 1));
            }
            i = i + 1;
        }
        proof {
            assert(can_read(b, arr_pos as int, 4 * (nb_resources as int)));
        }
        Ok(ResourceMap { header, resources_id })
    }
}

/// Resolve a well-known Android attribute resource identifier to its
/// name in the built-in table, which starts at identifier 0x01010000.
/// Exactly the identifiers inside the table resolve; every other value
/// fails with `ResourceIdOutOfRange`.
pub fn get_resource_string(id: u32) -> (r: Result<String, FormatError>)
    ensures
        r matches Ok(s) ==> 0x1010000 <= id < 0x1010000 + RESOURCE_NAME_COUNT && s@
            == spec_resource_name(id - 0x1010000),
        r matches Err(e) ==> (id < 0x1010000 || id >= 0x1010000 + RESOURCE_NAME_COUNT) && e
            == FormatError::ResourceIdOutOfRange,
{
    if id < 0x1010000 {
        return Err(FormatError::ResourceIdOutOfRange);
    }
    let idx: u32 = id - 0x1010000;
    match resource_name_at(idx as usize) {
        Some(name) => Ok(String::from_str(name)),
        None => Err(FormatError::ResourceIdOutOfRange),
    }
}

} // verus!
