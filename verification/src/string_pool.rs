//! String pool decoding.
//!
//! The pool chunk carries every string the document refers to by index:
//! a header, counts and flags, one table of string offsets and one of
//! style offsets, and then the string data itself, each entry found at
//! the chunk's own start plus `strings_start` plus its offset.  Entries
//! are UTF-8 or UTF-16 according to the flags; entries whose declared
//! length is zero are not appended.  The decoded strings are appended to
//! the document's growable string list, never replacing earlier pools.

use vstd::prelude::*;

use crate::chunk_header::{spec_chunk_header, ChunkHeader};
use crate::chunk_types::ChunkType;
use crate::cursor::{can_read, le16, le32, AxmlCursor};
use crate::error::FormatError;
use crate::text::{string_from_utf8, utf16_decode, utf16_to_string};

verus! {

use vstd::utf8::{valid_utf8, decode_utf8};

/// The views of a sequence of strings.
pub open spec fn string_views(ss: Seq<String>) -> Seq<Seq<char>> {
    ss.map_values(|s: String| s@)
}

/// The `n` little-endian 32-bit values starting at `pos`.
pub open spec fn spec_u32_array(b: Seq<u8>, pos: int, n: int) -> Seq<u32> {
    Seq::new(n as nat, |i: int| le32(b, pos + 4 * i) as u32)
}

/// One UTF-8 pool entry at `at`: one byte of encoded length, one byte of
/// byte length, then that many bytes of UTF-8 data.  Yields the declared
/// length, the decoded characters and the position past the entry.
pub open spec fn spec_utf8_entry(b: Seq<u8>, at: int) -> Result<(int, Seq<char>, int), FormatError> {
    if !can_read(b, at, 2) {
        Err(FormatError::TruncatedInput)
    } else {
        let size = b[at + 1] as int;
        if !can_read(b, at + 2, size) {
            Err(FormatError::TruncatedInput)
        } else if !valid_utf8(b.subrange(at + 2, at + 2 + size)) {
            Err(FormatError::InvalidTextEncoding)
        } else {
            Ok((size, decode_utf8(b.subrange(at + 2, at + 2 + size)), at + 2 + size))
        }
    }
}

/// One UTF-16 pool entry at `at`: a 16-bit character count, then that
/// many 16-bit code units.  A count with the high bit set announces the
/// long-string continuation, which this decoder does not support.
pub open spec fn spec_utf16_entry(b: Seq<u8>, at: int) -> Result<
    (int, Seq<char>, int),
    FormatError,
> {
    if !can_read(b, at, 2) {
        Err(FormatError::TruncatedInput)
    } else {
        let count = le16(b, at);
        if count >= 0x8000 {
            Err(FormatError::UnsupportedLongString)
        } else if !can_read(b, at + 2, 2 * count) {
            Err(FormatError::TruncatedInput)
        } else {
            let units = Seq::new(count as nat, |i: int| le16(b, at + 2 + 2 * i) as u16);
            match utf16_decode(units) {
                None => Err(FormatError::InvalidTextEncoding),
                Some(cs) => Ok((count, cs, at + 2 + 2 * count)),
            }
        }
    }
}

/// One pool entry at `at`, in the encoding the pool flags announce.
pub open spec fn spec_pool_entry(b: Seq<u8>, at: int, is_utf8: bool) -> Result<
    (int, Seq<char>, int),
    FormatError,
> {
    if is_utf8 {
        spec_utf8_entry(b, at)
    } else {
        spec_utf16_entry(b, at)
    }
}

/// The strings appended by decoding the entries for `offsets`, each
/// found at `base` plus its offset, left to right, keeping only entries
/// with a nonzero declared length; also the position past the last
/// entry, when there is one.  The first failing entry's error wins.
pub open spec fn spec_pool_strings(
    b: Seq<u8>,
    base: int,
    offsets: Seq<u32>,
    is_utf8: bool,
) -> Result<(Seq<Seq<char>>, Option<int>), FormatError>
    decreases offsets.len(),
{
    if offsets.len() == 0 {
        Ok((seq![], None))
    } else {
        match spec_pool_strings(b, base, offsets.drop_last(), is_utf8) {
            Err(e) => Err(e),
            Ok((ss, _)) => match spec_pool_entry(b, base + offsets.last(), is_utf8) {
                Err(e) => Err(e),
                Ok((size, cs, end)) => Ok(
                    (
                        if size > 0 {
                            ss.push(cs)
                        } else {
                            ss
                        },
                        Some(end),
                    ),
                ),
            },
        }
    }
}

/// Once an entry fails, the whole pool decode fails with that entry's
/// error, provided every entry before it succeeded.
pub proof fn lemma_pool_strings_error(
    b: Seq<u8>,
    base: int,
    offsets: Seq<u32>,
    is_utf8: bool,
    i: int,
)
    requires
        0 <= i < offsets.len(),
        spec_pool_strings(b, base, offsets.take(i), is_utf8) is Ok,
        spec_pool_entry(b, base + offsets[i], is_utf8) is Err,
    ensures
        spec_pool_strings(b, base, offsets, is_utf8) == Err::<
            (Seq<Seq<char>>, Option<int>),
            FormatError,
        >(spec_pool_entry(b, base + offsets[i], is_utf8)->Err_0),
    decreases offsets.len(),
{
    if i == offsets.len() - 1 {
        assert(offsets.drop_last() =~= offsets.take(i));
    } else {
        assert(offsets.drop_last().take(i) =~= offsets.take(i));
        lemma_pool_strings_error(b, base, offsets.drop_last(), is_utf8, i);
    }
}

/// On success a pool entry covers at least its two length bytes and
/// ends inside the buffer.
pub proof fn lemma_pool_entry_bounds(b: Seq<u8>, at: int, is_utf8: bool)
    requires
        spec_pool_entry(b, at, is_utf8) is Ok,
    ensures
        at + 2 <= (spec_pool_entry(b, at, is_utf8)->Ok_0).2 <= b.len(),
{
}

/// On success the position past the last decoded entry lies at least
/// two bytes past the pool base and inside the buffer.
pub proof fn lemma_pool_strings_bounds(b: Seq<u8>, base: int, offsets: Seq<u32>, is_utf8: bool)
    requires
        spec_pool_strings(b, base, offsets, is_utf8) is Ok,
        (spec_pool_strings(b, base, offsets, is_utf8)->Ok_0).1 is Some,
    ensures
        base + 2 <= ((spec_pool_strings(b, base, offsets, is_utf8)->Ok_0).1).unwrap() <= b.len(),
    decreases offsets.len(),
{
    let last_at = base + offsets.last();
    lemma_pool_entry_bounds(b, last_at, is_utf8);
}

/// On success decoding a string-pool chunk moves the cursor forward by
/// at least two bytes and never past the end of the buffer.
pub proof fn lemma_string_pool_bounds(b: Seq<u8>, initial: int)
    requires
        spec_string_pool(b, initial) is Ok,
    ensures
        initial + 2 <= (spec_string_pool(b, initial)->Ok_0).1 <= b.len(),
{
    let p = initial + 8;
    let sc = le32(b, p);
    let stc = le32(b, p + 4);
    let ss = le32(b, p + 12);
    let off_pos = p + 20;
    let str_offs = spec_u32_array(b, off_pos, sc);
    let is_utf8 = (le32(b, p + 8) as u32) & 0x100 != 0;
    let inner = spec_pool_strings(b, initial + ss, str_offs, is_utf8);
    if inner is Ok && (inner->Ok_0).1 is Some {
        lemma_pool_strings_bounds(b, initial + ss, str_offs, is_utf8);
    }
}

/// Everything decoded from one string-pool chunk whose header starts at
/// `initial`: the fields after the header, both offset tables, and the
/// strings its entries append.
pub ghost struct SpecPool {
    pub header: ChunkHeader,
    pub string_count: u32,
    pub style_count: u32,
    pub is_sorted: bool,
    pub is_utf8: bool,
    pub strings_start: u32,
    pub styles_start: u32,
    pub strings_offsets: Seq<u32>,
    pub styles_offsets: Seq<u32>,
    pub appended: Seq<Seq<char>>,
}

/// Decoding the string-pool chunk at `initial`: its header (which must
/// carry the string-pool tag), the five 32-bit fields that follow, both
/// offset tables, and every string entry.  Flag bit 0 is `is_sorted`,
/// flag bit 8 is `is_utf8`.  On success the final position is just past
/// the last string entry, or just past the offset tables when the pool
/// has no entries.
pub open spec fn spec_string_pool(b: Seq<u8>, initial: int) -> Result<
    (SpecPool, int),
    FormatError,
> {
    match spec_chunk_header(b, initial, ChunkType::ResStringPoolType) {
        Err(e) => Err(e),
        Ok((header, p)) => {
            if !can_read(b, p, 20) {
                Err(FormatError::TruncatedInput)
            } else {
                let sc = le32(b, p);
                let stc = le32(b, p + 4);
                let flags = le32(b, p + 8) as u32;
                let ss = le32(b, p + 12);
                let sts = le32(b, p + 16);
                let off_pos = p + 20;
                if !can_read(b, off_pos, 4 * sc) {
                    Err(FormatError::TruncatedInput)
                } else if !can_read(b, off_pos + 4 * sc, 4 * stc) {
                    Err(FormatError::TruncatedInput)
                } else {
                    let str_offs = spec_u32_array(b, off_pos, sc);
                    let sty_offs = spec_u32_array(b, off_pos + 4 * sc, stc);
                    let is_utf8 = flags & 0x100 != 0;
                    match spec_pool_strings(b, initial + ss, str_offs, is_utf8) {
                        Err(e) => Err(e),
                        Ok((appended, endo)) => {
                            let final_pos = match endo {
                                Some(e) => e,
                                None => off_pos + 4 * sc + 4 * stc,
                            };
                            Ok(
                                (
                                    SpecPool {
                                        header,
                                        string_count: sc as u32,
                                        style_count: stc as u32,
                                        is_sorted: flags & 1 != 0,
                                        is_utf8,
                                        strings_start: ss as u32,
                                        styles_start: sts as u32,
                                        strings_offsets: str_offs,
                                        styles_offsets: sty_offs,
                                        appended,
                                    },
                                    final_pos,
                                ),
                            )
                        },
                    }
                }
            }
        },
    }
}

/// String pool structure.
///
/// The `strings` field holds a copy of the document's whole string list
/// as it stands once this chunk's entries have been appended.
#[derive(Debug)]
pub struct StringPool {
    /// Chunk header.
    pub header: ChunkHeader,
    /// Number of string offsets announced by the chunk.
    pub string_count: u32,
    /// Number of style offsets announced by the chunk.
    pub style_count: u32,
    /// Flag bit 0: the pool claims to be sorted.
    pub is_sorted: bool,
    /// Flag bit 8: entries are UTF-8 rather than UTF-16.
    pub is_utf8: bool,
    /// Offset from the chunk start to the string data.
    pub strings_start: u32,
    /// Offset from the chunk start to the style data.
    pub styles_start: u32,
    /// The string offsets, relative to `strings_start`.
    pub strings_offsets: Vec<u32>,
    /// The style offsets (recorded, not decoded further).
    pub styles_offsets: Vec<u32>,
    /// The document's strings after this chunk was appended.
    pub strings: Vec<String>,
}

/// Copy a list of strings.
fn clone_string_vec(v: &Vec<String>) -> (r: Vec<String>)
    ensures
        r@ == v@,
{
    let mut r: Vec<String> = Vec::new();
    let mut i: usize = 0;
    while i < v.len()
        invariant
            i <= v@.len(),
            r@ =~= v@.take(i as int),
        decreases v@.len() - i,
    {
        r.push(v[i].clone());
        proof {
            assert(r@ =~= v@.take(i + 1));
        }
        i = i + 1;
    }
    proof {
        assert(v@.take(v@.len() as int) =~= v@);
    }
    r
}

/// Read one string entry at the current position, in the given encoding.
/// Exact with respect to [`spec_pool_entry`]; yields the declared length
/// and the decoded string.
#[verifier::loop_isolation(false)]
fn read_pool_entry(axml_buff: &mut AxmlCursor, is_utf8: bool) -> (r: Result<
    (u32, String),
    FormatError,
>)
    ensures
        final(axml_buff).data@ == old(axml_buff).data@,
        match spec_pool_entry(old(axml_buff).data@, old(axml_buff).pos as int, is_utf8) {
            Ok((size, cs, end)) => {
                &&& r matches Ok(p)
                &&& p.0 == size
                &&& p.1@ == cs
                &&& final(axml_buff).pos == end
            },
            Err(e) => r == Err::<(u32, String), FormatError>(e),
        },
{
    let ghost b = old(axml_buff).data@;
    let ghost at = old(axml_buff).pos as int;
    if is_utf8 {
        let _encoded_size: u8 = axml_buff.read_u8()?;
        let str_size: u8 = axml_buff.read_u8()?;
        let mut str_buff: Vec<u8> = Vec::new();
        let mut j: usize = 0;
        proof {
            assert(str_buff@ =~= b.subrange(at + 2, at + 2));
        }
        while j < str_size as usize
            invariant
                axml_buff.data@ == b,
                j <= str_size,
                axml_buff.pos == at + 2 + j,
                at + 2 + j <= b.len(),
                str_buff@ =~= b.subrange(at + 2, at + 2 + j),
                can_read(b, at, 2),
                str_size == b[at + 1],
            decreases str_size - j,
        {
            let byte: u8 = axml_buff.read_u8()?;
            str_buff.push(byte);
            proof {
                assert(str_buff@ =~= b.subrange(at + 2, at + 2 + j + 1));
            }
            j = j + 1;
        }
        match string_from_utf8(str_buff) {
            Ok(decoded) => Ok((str_size as u32, decoded)),
            Err(e) => Err(e),
        }
    } else {
        let count: u16 = axml_buff.read_u16()?;
        if count >= 0x8000 {
            return Err(FormatError::UnsupportedLongString);
        }
        let mut units: Vec<u16> = Vec::new();
        let mut j: usize = 0;
        while j < count as usize
            invariant
                axml_buff.data@ == b,
                j <= count,
                axml_buff.pos == at + 2 + 2 * j,
                at + 2 + 2 * j <= b.len(),
                count < 0x8000,
                units@ =~= Seq::new(j as nat, |k: int| le16(b, at + 2 + 2 * k) as u16),
                can_read(b, at, 2),
                count == le16(b, at),
            decreases count - j,
        {
            let unit: u16 = axml_buff.read_u16()?;
            units.push(unit);
            proof {
                assert(units@ =~= Seq::new((j + 1) as nat, |k: int| le16(b, at + 2 + 2 * k) as u16));
            }
            j = j + 1;
        }
        proof {
            assert(can_read(b, at + 2, 2 * count as int));
        }
        match utf16_to_string(&units) {
            Ok(decoded) => Ok((count as u32, decoded)),
            Err(e) => Err(e),
        }
    }
}

impl StringPool {
    /// Parse the string-pool chunk whose tag the caller has just read,
    /// and append its strings to `global_strings`.  Exact with respect
    /// to [`spec_string_pool`]; on failure `global_strings` is unchanged.
    #[verifier::loop_isolation(false)]
    #[verifier::rlimit(60)]
    pub fn from_buff(axml_buff: &mut AxmlCursor, global_strings: &mut Vec<String>) -> (r: Result<
        StringPool,
        FormatError,
    >)
        requires
            old(axml_buff).pos >= 2,
        ensures
            final(axml_buff).data@ == old(axml_buff).data@,
            match spec_string_pool(old(axml_buff).data@, old(axml_buff).pos - 2) {
                Ok((sp, p)) => {
                    &&& r matches Ok(pool)
                    &&& pool.header == sp.header
                    &&& pool.string_count == sp.string_count
                    &&& pool.style_count == sp.style_count
                    &&& pool.is_sorted == sp.is_sorted
                    &&& pool.is_utf8 == sp.is_utf8
                    &&& pool.strings_start == sp.strings_start
                    &&& pool.styles_start == sp.styles_start
                    &&& pool.strings_offsets@ == sp.strings_offsets
                    &&& pool.styles_offsets@ == sp.styles_offsets
                    &&& string_views(final(global_strings)@) == string_views(old(global_strings)@)
                        + sp.appended
                    &&& pool.strings@ == final(global_strings)@
                    &&& final(axml_buff).pos == p
                },
                Err(e) => r == Err::<StringPool, FormatError>(e) && final(global_strings)@ == old(
                    global_strings,
                )@,
            },
    {
        let ghost b = old(axml_buff).data@;
        let buff_len: usize = axml_buff.data.len();
        let initial: usize = axml_buff.position() - 2;
        axml_buff.set_position(initial);

        let header: ChunkHeader = ChunkHeader::from_buff(axml_buff, ChunkType::ResStringPoolType)?;

        let string_count: u32 = axml_buff.read_u32()?;
        let style_count: u32 = axml_buff.read_u32()?;
        let flags: u32 = axml_buff.read_u32()?;
        let is_sorted: bool = flags & 1 != 0;
        let is_utf8: bool = flags & 0x100 != 0;
        let strings_start: u32 = axml_buff.read_u32()?;
        let styles_start: u32 = axml_buff.read_u32()?;

        let ghost off_pos = initial + 28;
        let ghost sc = le32(b, initial + 8);
        let ghost stc = le32(b, initial + 12);

        // String offsets.
        let mut strings_offsets: Vec<u32> = Vec::new();
        let mut i: usize = 0;
        while i < string_count as usize
            invariant
                axml_buff.data@ == b,
                i <= string_count,
                string_count == sc,
                axml_buff.pos == off_pos + 4 * i,
                off_pos + 4 * i <= b.len(),
                strings_offsets@ =~= spec_u32_array(b, off_pos as int, i as int),
            decreases string_count - i,
        {
            let offset: u32 = axml_buff.read_u32()?;
            strings_offsets.push(offset);
            proof {
                assert(strings_offsets@ =~= spec_u32_array(b, off_pos as int, i + 1));
            }
            i = i + 1;
        }
        proof {
            assert(can_read(b, off_pos as int, 4 * sc));
        }

        // Style offsets.
        let ghost sty_pos = off_pos + 4 * sc;
        let mut styles_offsets: Vec<u32> = Vec::new();
        let mut i2: usize = 0;
        while i2 < style_count as usize
            invariant
                axml_buff.data@ == b,
                i2 <= style_count,
                style_count == stc,
                axml_buff.pos == sty_pos + 4 * i2,
                sty_pos + 4 * i2 <= b.len(),
                styles_offsets@ =~= spec_u32_array(b, sty_pos as int, i2 as int),
            decreases style_count - i2,
        {
            let offset: u32 = axml_buff.read_u32()?;
            styles_offsets.push(offset);
            proof {
                assert(styles_offsets@ =~= spec_u32_array(b, sty_pos as int, i2 + 1));
            }
            i2 = i2 + 1;
        }
        proof {
            assert(can_read(b, sty_pos as int, 4 * stc));
        }
        let ghost after_offsets = axml_buff.pos as int;

        // String entries.
        let ghost base = initial + strings_start;
        let mut appended: Vec<String> = Vec::new();
        let mut k: usize = 0;
        proof {
            assert(strings_offsets@.take(0) =~= Seq::<u32>::empty());
            assert(string_views(appended@) =~= Seq::<Seq<char>>::empty());
        }
        while k < strings_offsets.len()
            invariant
                axml_buff.data@ == b,
                b.len() == buff_len <= usize::MAX,
                k <= strings_offsets@.len(),
                strings_offsets@.len() == sc,
                strings_offsets@ == spec_u32_array(b, off_pos as int, sc),
                initial + strings_start == base,
                spec_pool_strings(b, base, strings_offsets@.take(k as int), is_utf8) is Ok,
                string_views(appended@) == (spec_pool_strings(
                    b,
                    base,
                    strings_offsets@.take(k as int),
                    is_utf8,
                )->Ok_0).0,
                match (spec_pool_strings(b, base, strings_offsets@.take(k as int), is_utf8)->Ok_0).1 {
                    Some(e) => axml_buff.pos == e,
                    None => axml_buff.pos == after_offsets,
                },
            decreases strings_offsets@.len() - k,
        {
            let offset: u32 = strings_offsets[k];
            let ghost entry_at = base + offset;
            let at_opt: Option<usize> = match initial.checked_add(strings_start as usize) {
                Some(a) => a.checked_add(offset as usize),
                None => None,
            };
            let at: usize = match at_opt {
                Some(a) => a,
                None => {
                    proof {
                        assert(!can_read(b, entry_at, 2));
                        lemma_pool_strings_error(b, base, strings_offsets@, is_utf8, k as int);
                    }
                    return Err(FormatError::TruncatedInput);
                },
            };
            axml_buff.set_position(at);
            match read_pool_entry(axml_buff, is_utf8) {
                Err(e) => {
                    proof {
                        lemma_pool_strings_error(b, base, strings_offsets@, is_utf8, k as int);
                    }
                    return Err(e);
                },
                Ok((size, decoded)) => {
                    proof {
                        assert(strings_offsets@.take(k + 1).drop_last() =~= strings_offsets@.take(
                            k as int,
                        ));
                        assert(strings_offsets@.take(k + 1).last() == strings_offsets@[k as int]);
                    }
                    if size > 0 {
                        let ghost prev = appended@;
                        appended.push(decoded);
                        proof {
                            assert(string_views(appended@) =~= string_views(prev).push(
                                appended@.last()@,
                            ));
                        }
                    }
                },
            }
            k = k + 1;
        }
        proof {
            assert(strings_offsets@.take(sc) =~= strings_offsets@);
        }

        // Append to the document's string list and record the result.
        let ghost old_global = global_strings@;
        let ghost appended_final = appended@;
        let mut m: usize = 0;
        while m < appended.len()
            invariant
                m <= appended@.len(),
                appended@ == appended_final,
                global_strings@ =~= old_global + appended@.take(m as int),
            decreases appended@.len() - m,
        {
            global_strings.push(appended[m].clone());
            proof {
                assert(global_strings@ =~= old_global + appended@.take(m + 1));
            }
            m = m + 1;
        }
        proof {
            assert(appended@.take(appended@.len() as int) =~= appended@);
            assert(global_strings@ =~= old_global + appended@);
            assert(string_views(old_global + appended@) =~= string_views(old_global)
                + string_views(appended@));
        }

        let strings: Vec<String> = clone_string_vec(global_strings);

        Ok(
            StringPool {
                header,
                string_count,
                style_count,
                is_sorted,
                is_utf8,
                strings_start,
                styles_start,
                strings_offsets,
                styles_offsets,
                strings,
            },
        )
    }
}

} // verus!
