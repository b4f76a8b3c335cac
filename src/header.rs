//! The header of a BSP map file and its lump directory.
use vstd::prelude::*;

use crate::bytes::{get_bytes_4, get_i32_from_bytes, i32_at, I32_SIZE};

verus! {

/// Number of entries in the lump directory.
pub const HEADER_LUMPS: usize = 64;

/// Size in bytes of one lump directory entry.
pub const LUMP_SIZE: usize = 4 * I32_SIZE;

/// Size in bytes of the whole header: tag, version, directory, revision.
pub const HEADER_SIZE: usize = 2 * I32_SIZE + HEADER_LUMPS * LUMP_SIZE + I32_SIZE;

/// One entry of the lump directory: where a lump lies in the file, how long
/// it is, its format version and its four-byte code.
#[derive(Clone, Copy, Debug)]
pub struct LumpT {
    pub file_ofs: i32,
    pub file_len: i32,
    pub version: i32,
    pub four_cc: [u8; I32_SIZE],
}

/// The fixed-size header at the start of a BSP map file.
#[derive(Clone, Copy, Debug)]
pub struct DHeaderT {
    pub ident: [u8; I32_SIZE],
    pub version: i32,
    pub lumps: [LumpT; HEADER_LUMPS],
    pub map_revision: i32,
}

/// Byte offset of directory entry `n` within the header.
pub open spec fn lump_offset(n: int) -> int {
    2 * I32_SIZE + n * LUMP_SIZE
}

/// Byte offset of the map revision counter within the header.
pub open spec fn map_revision_offset() -> int {
    2 * I32_SIZE + HEADER_LUMPS * LUMP_SIZE
}

/// Whether `l` holds the fields of the entry that starts at `ofs` in `s`.
pub open spec fn lump_read_at(l: LumpT, s: Seq<u8>, ofs: int) -> bool {
    &&& l.file_ofs as int == i32_at(s, ofs)
    &&& l.file_len as int == i32_at(s, ofs + 4)
    &&& l.version as int == i32_at(s, ofs + 8)
    &&& l.four_cc@ == s.subrange(ofs + 12, ofs + 16)
}

/// Whether `h` holds the fields of the header stored at the start of `s`.
pub open spec fn header_read_from(h: DHeaderT, s: Seq<u8>) -> bool {
    &&& h.ident@ == s.subrange(0, 4)
    &&& h.version as int == i32_at(s, 4)
    &&& forall|i: int| 0 <= i < HEADER_LUMPS ==> #[trigger] lump_read_at(h.lumps@[i], s, lump_offset(i))
    &&& h.map_revision as int == i32_at(s, map_revision_offset())
}

impl LumpT {
    /// Decodes directory entry `lump_num` of the header held in `header_bytes`.
    pub fn new(header_bytes: &[u8], lump_num: usize) -> (r: Self)
        requires
            lump_offset(lump_num as int) + LUMP_SIZE <= header_bytes@.len(),
        ensures
            lump_read_at(r, header_bytes@, lump_offset(lump_num as int)),
    {
        let len = header_bytes.len();
        assert(lump_offset(lump_num as int) + LUMP_SIZE <= len);
        let offset = I32_SIZE * 2 + lump_num * LUMP_SIZE;
        Self {
            file_ofs: get_i32_from_bytes(header_bytes, offset),
            file_len: get_i32_from_bytes(header_bytes, offset + I32_SIZE),
            version: get_i32_from_bytes(header_bytes, offset + I32_SIZE * 2),
            four_cc: get_bytes_4(header_bytes, offset + I32_SIZE * 3),
        }
    }
}

impl DHeaderT {
    /// Decodes the header stored at the start of `header_bytes`.
    pub fn from_bytes(header_bytes: &[u8]) -> (r: Self)
        requires
            HEADER_SIZE <= header_bytes@.len(),
        ensures
            header_read_from(r, header_bytes@),
    {
        let empty = LumpT { file_ofs: 0, file_len: 0, version: 0, four_cc: [0u8; I32_SIZE] };
        let mut lumps = [empty; HEADER_LUMPS];
        let mut i: usize = 0;
        while i < HEADER_LUMPS
            invariant
                i <= HEADER_LUMPS,
                HEADER_SIZE <= header_bytes@.len(),
                forall|j: int| 0 <= j < i ==> #[trigger] lump_read_at(lumps@[j], header_bytes@, lump_offset(j)),
            decreases HEADER_LUMPS - i,
        {
            assert(lump_offset(i as int) + LUMP_SIZE <= HEADER_SIZE);
            lumps[i] = LumpT::new(header_bytes, i);
            i = i + 1;
        }
        Self {
            ident: get_bytes_4(header_bytes, 0),
            version: get_i32_from_bytes(header_bytes, I32_SIZE),
            lumps,
            map_revision: get_i32_from_bytes(header_bytes, I32_SIZE * 2 + LUMP_SIZE * HEADER_LUMPS),
        }
    }
}

} // verus!
