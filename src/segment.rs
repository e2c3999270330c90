use vstd::prelude::*;

use crate::addr::Addr;
use crate::bytes::{le32, le64, read_u32, read_u64};
use crate::error::{need, truncated, Context, ErrorKind, ParseError};
use crate::types::{DynamicTag, SegmentType};

verus! {

/// Size in bytes of one ELF64 program header.
pub const PH_SIZE: usize = 56;

/// Size in bytes of one entry of the dynamic table.
pub const DYN_ENTRY_SIZE: usize = 16;

/// The permissions a segment asks for, one flag per bit of `p_flags`.
#[derive(Clone, Copy, Debug, PartialEq, Eq, Structural)]
pub struct SegmentFlags {
    pub read: bool,
    pub write: bool,
    pub execute: bool,
}

/// The flag set stored in the raw `p_flags` word `x`.
pub open spec fn flags_of(x: u32) -> SegmentFlags {
    SegmentFlags { read: x & 4 != 0, write: x & 2 != 0, execute: x & 1 != 0 }
}

impl SegmentFlags {
    /// Decodes the raw `p_flags` word; bits other than R, W and X are ignored.
    pub fn from_u32(x: u32) -> (r: SegmentFlags)
        ensures
            r == flags_of(x),
    {
        SegmentFlags { read: x & 4 != 0, write: x & 2 != 0, execute: x & 1 != 0 }
    }
}

/// One `(tag, value)` entry of the dynamic table.
#[derive(Clone, Copy, Debug, PartialEq, Eq, Structural)]
pub struct DynamicEntry {
    pub tag: DynamicTag,
    pub value: Addr,
}

/// What a segment holds beyond its raw bytes.
#[derive(Clone, Debug)]
pub enum SegmentContents {
    /// The entries of a dynamic segment, up to and including the `Null` entry.
    Dynamic(Vec<DynamicEntry>),
    /// Nothing decoded.
    Unknown,
}

/// One program header, with a copy of the bytes of its segment.
#[derive(Clone, Debug)]
pub struct ProgramHeader {
    pub segment_type: SegmentType,
    pub flags: SegmentFlags,
    pub offset: Addr,
    pub vaddr: Addr,
    pub paddr: Addr,
    pub filesz: Addr,
    pub memsz: Addr,
    pub align: Addr,
    pub data: Vec<u8>,
    pub contents: SegmentContents,
}

/// The raw tag of entry `k` of the dynamic table `d`.
pub open spec fn dyn_tag(d: Seq<u8>, k: int) -> int {
    le64(d, 16 * k)
}

/// `e` is the entry stored at index `k` of the dynamic table `d`.
pub open spec fn dyn_entry_at(d: Seq<u8>, k: int, e: DynamicEntry) -> bool {
    e.tag.decodes(dyn_tag(d, k) as u64) && e.value.0 == le64(d, 16 * k + 8)
}

/// Whether some complete entry of `d` has tag 0.
pub open spec fn has_null_entry(d: Seq<u8>) -> bool {
    exists|n: int| 0 <= n && 16 * n + 16 <= d.len() && #[trigger] dyn_tag(d, n) == 0
}

/// `es` is the dynamic table stored in `d`: its entries up to the first `Null`,
/// which ends it and appears nowhere else.
pub open spec fn dynamic_table(d: Seq<u8>, es: Seq<DynamicEntry>) -> bool {
    &&& es.len() >= 1
    &&& 16 * es.len() <= d.len()
    &&& forall|k: int| 0 <= k < es.len() ==> dyn_entry_at(d, k, #[trigger] es[k])
    &&& es.last().tag == DynamicTag::Null
    &&& forall|k: int| 0 <= k < es.len() - 1 ==> (#[trigger] es[k]).tag != DynamicTag::Null
}

/// Decodes the dynamic table in `d`, the bytes of a segment that starts at
/// offset `at` of the input; errors report offsets from the input's start.
pub fn parse_dynamic(d: &[u8], at: usize) -> (r: Result<Vec<DynamicEntry>, ParseError>)
    requires
        at + d@.len() <= usize::MAX,
    ensures
        r is Ok <==> has_null_entry(d@),
        r matches Ok(es) ==> dynamic_table(d@, es@),
        r matches Err(e) ==> e == truncated(
            Context::DynamicTable,
            at + 16 * (d@.len() / 16),
        ),
{
    let mut entries: Vec<DynamicEntry> = Vec::new();
    let mut p: usize = 0;
    loop
        invariant
            p == 16 * entries@.len(),
            p <= d@.len(),
            at + d@.len() <= usize::MAX,
            forall|k: int| 0 <= k < entries@.len() ==> dyn_entry_at(d@, k, #[trigger] entries@[k]),
            forall|k: int| 0 <= k < entries@.len() ==> (#[trigger] entries@[k]).tag != DynamicTag::Null,
            forall|k: int| 0 <= k < entries@.len() ==> #[trigger] dyn_tag(d@, k) != 0,
        decreases d@.len() - p,
    {
        if d.len() - p < DYN_ENTRY_SIZE {
            assert(!has_null_entry(d@)) by {
                assert forall|n: int| 0 <= n && 16 * n + 16 <= d@.len() implies #[trigger] dyn_tag(
                    d@,
                    n,
                ) != 0 by {
                    assert(n < entries@.len());
                }
            }
            return Err(ParseError { kind: ErrorKind::Truncated, context: Context::DynamicTable, offset: at + p });
        }
        let tag = read_u64(d, p);
        let value = read_u64(d, p + 8);
        let e = DynamicEntry { tag: DynamicTag::from_u64(tag), value: Addr(value) };
        entries.push(e);
        p = p + DYN_ENTRY_SIZE;
        if tag == 0 {
            assert(has_null_entry(d@)) by {
                let n = entries@.len() - 1;
                assert(dyn_tag(d@, n) == 0);
            }
            return Ok(entries);
        }
    }
}

/// The first error in the program header stored at `p` of `b`, if any.
pub open spec fn ph_error(b: Seq<u8>, p: int) -> Option<ParseError> {
    if p + 56 > b.len() {
        Some(truncated(Context::ProgramHeader, p))
    } else if le64(b, p + 8) + le64(b, p + 32) > b.len() {
        Some(truncated(Context::SegmentData, le64(b, p + 8)))
    } else if le32(b, p) == 2 && !has_null_entry(
        b.subrange(le64(b, p + 8), le64(b, p + 8) + le64(b, p + 32)),
    ) {
        Some(truncated(Context::DynamicTable, le64(b, p + 8) + 16 * (le64(b, p + 32) / 16)))
    } else {
        None
    }
}

/// `ph` holds the program header stored at `p` of `b`, the bytes of its segment
/// and, for a dynamic segment, its table.
pub open spec fn ph_fields(b: Seq<u8>, p: int, ph: ProgramHeader) -> bool {
    &&& ph.segment_type.decodes(le32(b, p) as u32)
    &&& ph.flags == flags_of(le32(b, p + 4) as u32)
    &&& ph.offset.0 == le64(b, p + 8)
    &&& ph.vaddr.0 == le64(b, p + 16)
    &&& ph.paddr.0 == le64(b, p + 24)
    &&& ph.filesz.0 == le64(b, p + 32)
    &&& ph.memsz.0 == le64(b, p + 40)
    &&& ph.align.0 == le64(b, p + 48)
    &&& ph.data@ == b.subrange(ph.offset.0 as int, ph.offset.0 + ph.filesz.0)
    &&& ph.data@.len() == ph.filesz.0
    &&& match ph.contents {
        SegmentContents::Dynamic(es) => ph.segment_type == SegmentType::Dynamic && dynamic_table(
            ph.data@,
            es@,
        ),
        SegmentContents::Unknown => ph.segment_type != SegmentType::Dynamic,
    }
}

/// Copies `b[start..start + len]`.
pub(crate) fn copy_range(b: &[u8], start: usize, len: usize) -> (r: Vec<u8>)
    requires
        start + len <= b@.len(),
    ensures
        r@ == b@.subrange(start as int, start + len),
{
    let n = b.len();
    let mut out: Vec<u8> = Vec::with_capacity(len);
    let mut i: usize = 0;
    while i < len
        invariant
            i <= len,
            n == b@.len(),
            start + len <= b@.len(),
            out@ == b@.subrange(start as int, start + i),
        decreases len - i,
    {
        out.push(b[start + i]);
        i = i + 1;
        assert(out@ =~= b@.subrange(start as int, start + i));
    }
    out
}

impl ProgramHeader {
    /// Decodes the program header stored at `p` of `b`, copies its segment's
    /// bytes and, for a dynamic segment, decodes its table.
    pub fn parse(b: &[u8], p: usize) -> (r: Result<ProgramHeader, ParseError>)
        ensures
            r is Ok <==> ph_error(b@, p as int) is None,
            r matches Err(e) ==> ph_error(b@, p as int) == Some(e),
            r matches Ok(ph) ==> ph_fields(b@, p as int, ph),
    {
        let n = b.len();
        need(b, p, PH_SIZE, Context::ProgramHeader)?;
        let segment_type = SegmentType::from_u32(read_u32(b, p));
        let flags = SegmentFlags::from_u32(read_u32(b, p + 4));
        let offset = read_u64(b, p + 8);
        let vaddr = read_u64(b, p + 16);
        let paddr = read_u64(b, p + 24);
        let filesz = read_u64(b, p + 32);
        let memsz = read_u64(b, p + 40);
        let align = read_u64(b, p + 48);
        if offset > n as u64 || filesz > n as u64 - offset {
            return Err(
                ParseError {
                    kind: ErrorKind::Truncated,
                    context: Context::SegmentData,
                    offset: #[verifier::truncate] (offset as usize),
                },
            );
        }
        let data = copy_range(b, offset as usize, filesz as usize);
        let contents = match segment_type {
            SegmentType::Dynamic => {
                let es = parse_dynamic(data.as_slice(), offset as usize)?;
                SegmentContents::Dynamic(es)
            },
            _ => SegmentContents::Unknown,
        };
        Ok(
            ProgramHeader {
                segment_type,
                flags,
                offset: Addr(offset),
                vaddr: Addr(vaddr),
                paddr: Addr(paddr),
                filesz: Addr(filesz),
                memsz: Addr(memsz),
                align: Addr(align),
                data,
                contents,
            },
        )
    }
}

} // verus!
