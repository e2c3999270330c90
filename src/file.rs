use vstd::prelude::*;

use crate::addr::Addr;
use crate::bytes::{le16, le32, le64};
use crate::error::{truncated, Context, ErrorKind, ParseError};
use crate::header::{
    error_at, header_error, header_fields, ident_error, tail_truncated, FileHeader, HEADER_SIZE,
};
use crate::segment::{ph_error, ph_fields, ProgramHeader};
use crate::types::{Machine, SegmentType, Type};

verus! {

/// A decoded ELF64 file.
#[derive(Clone, Debug)]
pub struct File {
    pub file_type: Type,
    pub machine: Machine,
    pub entry_point: Addr,
    pub program_headers: Vec<ProgramHeader>,
}

/// Where the program header of index `i` starts in `b`.
pub open spec fn ph_pos(b: Seq<u8>, i: int) -> int {
    le64(b, 32) + i * le16(b, 54)
}

/// The number of program headers that the header of `b` announces.
pub open spec fn ph_count(b: Seq<u8>) -> int {
    le16(b, 56)
}

/// Whether `a` lies in the memory range `[vaddr, vaddr + memsz)` of `ph`.
pub open spec fn in_mem_range(ph: ProgramHeader, a: Addr) -> bool {
    ph.vaddr.0 <= a.0 < ph.vaddr.0 + ph.memsz.0
}

/// Whether `ph` is a loadable segment whose memory range holds `a`.
pub open spec fn load_holds(ph: ProgramHeader, a: Addr) -> bool {
    ph.segment_type == SegmentType::Load && in_mem_range(ph, a)
}

/// Whether the program header of index `i` in `b` is loadable and holds the
/// entry point, read from the bytes.
pub open spec fn entry_hit(b: Seq<u8>, i: int) -> bool {
    let p = ph_pos(b, i);
    le32(b, p) == 1 && le64(b, p + 16) <= le64(b, 24) < le64(b, p + 16) + le64(b, p + 40)
}

/// Exactly one program header of `b` is loadable and holds the entry point.
pub open spec fn unique_entry_hit(b: Seq<u8>) -> bool {
    exists|k: int|
        0 <= k < ph_count(b) && #[trigger] entry_hit(b, k) && forall|j: int|
            0 <= j < ph_count(b) && #[trigger] entry_hit(b, j) ==> j == k
}

/// The first error among the program headers of index `i` and above.
pub open spec fn first_ph_error(b: Seq<u8>, i: int) -> Option<ParseError>
    decreases ph_count(b) - i,
{
    if i < 0 || i >= ph_count(b) {
        None
    } else if ph_error(b, ph_pos(b, i)) is Some {
        ph_error(b, ph_pos(b, i))
    } else {
        first_ph_error(b, i + 1)
    }
}

/// The first error in the whole file, in decoding order, if any.
pub open spec fn file_error(b: Seq<u8>) -> Option<ParseError> {
    if header_error(b) is Some {
        header_error(b)
    } else if first_ph_error(b, 0) is Some {
        first_ph_error(b, 0)
    } else if !unique_entry_hit(b) {
        Some(error_at(ErrorKind::EntryPointNotInAnySegment, Context::EntryPoint, 24))
    } else {
        None
    }
}

/// Exactly one loadable segment of `phs` holds `e`.
pub open spec fn unique_entry_segment(phs: Seq<ProgramHeader>, e: Addr) -> bool {
    exists|k: int|
        0 <= k < phs.len() && #[trigger] load_holds(phs[k], e) && forall|j: int|
            0 <= j < phs.len() && #[trigger] load_holds(phs[j], e) ==> j == k
}

/// `f` is the file stored in `b`.
pub open spec fn file_fields(b: Seq<u8>, f: File) -> bool {
    &&& f.file_type.raw() == le16(b, 16)
    &&& f.machine.raw() == le16(b, 18)
    &&& f.entry_point.0 == le64(b, 24)
    &&& f.program_headers@.len() == ph_count(b)
    &&& forall|i: int|
        0 <= i < f.program_headers@.len() ==> ph_fields(
            b,
            ph_pos(b, i),
            #[trigger] f.program_headers@[i],
        )
}

pub(crate) fn holds_entry(ph: &ProgramHeader, e: Addr) -> (r: bool)
    ensures
        r == load_holds(*ph, e),
{
    match ph.segment_type {
        SegmentType::Load => ph.vaddr.0 <= e.0 && e.0 - ph.vaddr.0 < ph.memsz.0,
        _ => false,
    }
}

/// Decodes the program header of index `i` and tells whether it is loadable
/// and holds the entry point.
fn parse_ph_at(b: &[u8], h: &FileHeader, i: usize) -> (r: Result<(ProgramHeader, bool), ParseError>)
    requires
        header_fields(b@, *h),
        b@.len() >= 64,
        i < h.ph_num,
    ensures
        r is Ok <==> ph_error(b@, ph_pos(b@, i as int)) is None,
        r matches Err(e) ==> ph_error(b@, ph_pos(b@, i as int)) == Some(e),
        r matches Ok((ph, hit)) ==> {
            &&& ph_fields(b@, ph_pos(b@, i as int), ph)
            &&& hit == entry_hit(b@, i as int)
            &&& hit == load_holds(ph, h.entry_point)
        },
{
    let len = b.len();
    assert((i as int) * (h.ph_entsize as int) <= 65535 * 65535) by (nonlinear_arith)
        requires
            i < 65536,
            h.ph_entsize < 65536,
    ;
    let pos: u128 = h.ph_off.0 as u128 + (i as u128) * (h.ph_entsize as u128);
    assert(pos == ph_pos(b@, i as int));
    if pos > len as u128 {
        return Err(
            ParseError {
                kind: ErrorKind::Truncated,
                context: Context::ProgramHeader,
                offset: #[verifier::truncate] (pos as usize),
            },
        );
    }
    let ph = ProgramHeader::parse(b, pos as usize)?;
    let hit = holds_entry(&ph, h.entry_point);
    proof {
        assert(ph.segment_type == SegmentType::Load <==> le32(b@, pos as int) == 1);
    }
    Ok((ph, hit))
}

impl File {
    /// Decodes a whole file: its header, then each program header with its
    /// segment's bytes and dynamic table, and checks that exactly one loadable
    /// segment holds the entry point.  On success returns the number of bytes
    /// the header took, after which the rest of the input begins.
    pub fn parse(b: &[u8]) -> (r: Result<(usize, File), ParseError>)
        ensures
            r is Ok <==> file_error(b@) is None,
            r matches Err(e) ==> file_error(b@) == Some(e),
            r matches Ok((n, f)) ==> {
                &&& n == HEADER_SIZE
                &&& file_fields(b@, f)
                &&& unique_entry_segment(f.program_headers@, f.entry_point)
            },
    {
        let (n, h) = FileHeader::parse(b)?;
        let len = b.len();
        let count = h.ph_num as usize;
        let mut phs: Vec<ProgramHeader> = Vec::new();
        let mut found: Option<usize> = None;
        let mut dup = false;
        let mut i: usize = 0;
        while i < count
            invariant
                header_error(b@) is None,
                header_fields(b@, h),
                len == b@.len(),
                count == ph_count(b@),
                i <= count,
                phs@.len() == i,
                first_ph_error(b@, 0) == first_ph_error(b@, i as int),
                forall|k: int| 0 <= k < i ==> ph_fields(b@, ph_pos(b@, k), #[trigger] phs@[k]),
                found is None ==> !dup && forall|j: int| 0 <= j < i ==> !#[trigger] entry_hit(b@, j),
                found matches Some(k) ==> {
                    &&& k < i
                    &&& entry_hit(b@, k as int)
                    &&& !dup ==> forall|j: int| 0 <= j < i && #[trigger] entry_hit(b@, j) ==> j == k
                    &&& dup ==> exists|j: int| 0 <= j < i && j != k && #[trigger] entry_hit(b@, j)
                },
            decreases count - i,
        {
            let (ph, hit) = parse_ph_at(b, &h, i)?;
            if hit {
                match found {
                    None => {
                        found = Some(i);
                    },
                    Some(k) => {
                        assert(i != k && entry_hit(b@, i as int));
                        dup = true;
                    },
                }
            }
            phs.push(ph);
            i = i + 1;
        }
        proof {
            assert(first_ph_error(b@, count as int) is None);
        }
        match found {
            Some(k) => {
                if dup {
                    assert(!unique_entry_hit(b@));
                    return Err(
                        ParseError {
                            kind: ErrorKind::EntryPointNotInAnySegment,
                            context: Context::EntryPoint,
                            offset: 24,
                        },
                    );
                }
                let f = File {
                    file_type: h.file_type,
                    machine: h.machine,
                    entry_point: h.entry_point,
                    program_headers: phs,
                };
                proof {
                    assert(unique_entry_hit(b@)) by {
                        assert(entry_hit(b@, k as int));
                    }
                    assert forall|j: int|
                        0 <= j < phs@.len() implies #[trigger] load_holds(phs@[j], h.entry_point)
                            == entry_hit(b@, j) by {
                        assert(ph_fields(b@, ph_pos(b@, j), phs@[j]));
                    }
                    assert(load_holds(phs@[k as int], h.entry_point));
                }
                Ok((n, f))
            },
            None => {
                assert(!unique_entry_hit(b@));
                Err(
                    ParseError {
                        kind: ErrorKind::EntryPointNotInAnySegment,
                        context: Context::EntryPoint,
                        offset: 24,
                    },
                )
            },
        }
    }
}

} // verus!

verus! {

/// Replacing one byte of a valid magic number by another value makes decoding
/// fail with bad magic at the offset of that byte.
pub proof fn lemma_bad_magic(b: Seq<u8>, k: int, x: u8)
    requires
        ident_error(b) is None,
        0 <= k < 4,
        x != b[k],
    ensures
        file_error(b.update(k, x)) == Some(error_at(ErrorKind::BadMagic, Context::Magic, k)),
{
}

/// Setting the class byte of a file with a valid identification to 1, the
/// class of 32-bit files, makes decoding fail with an unsupported class.
pub proof fn lemma_class_32_rejected(b: Seq<u8>)
    requires
        ident_error(b) is None,
    ensures
        file_error(b.update(4, 1)) == Some(error_at(ErrorKind::UnsupportedClass, Context::Class, 4)),
{
}

/// Changing the second version field of a valid header to any value other
/// than 1, and nothing else, makes decoding fail there.
pub proof fn lemma_bad_version_bis(b: Seq<u8>, c: Seq<u8>)
    requires
        header_error(b) is None,
        c.len() == b.len(),
        forall|i: int| 0 <= i < b.len() && !(20 <= i < 24) ==> c[i] == b[i],
        le32(c, 20) != 1,
    ensures
        file_error(c) == Some(error_at(ErrorKind::BadVersionBis, Context::VersionBis, 20)),
{
    assert(ident_error(c) == ident_error(b));
    assert(le16(c, 16) == le16(b, 16));
    assert(le16(c, 18) == le16(b, 18));
}

/// The offset and field reported for an input that ends after `n` bytes, with
/// `n < 64`, inside an otherwise valid header: the start of the field that
/// holds offset `n`.
pub open spec fn truncation_error(n: int) -> ParseError {
    if n < 4 {
        truncated(Context::Magic, 0)
    } else if n < 5 {
        truncated(Context::Class, 4)
    } else if n < 6 {
        truncated(Context::Endianness, 5)
    } else if n < 7 {
        truncated(Context::Version, 6)
    } else if n < 8 {
        truncated(Context::OsAbi, 7)
    } else if n < 16 {
        truncated(Context::Padding, 8)
    } else if n < 18 {
        truncated(Context::Type, 16)
    } else if n < 20 {
        truncated(Context::Machine, 18)
    } else if n < 24 {
        truncated(Context::VersionBis, 20)
    } else {
        tail_truncated(n)
    }
}

/// Cutting a valid header short at any offset makes decoding fail as
/// truncated, at the start of the field that the cut falls in.
pub proof fn lemma_truncated_header(b: Seq<u8>, n: int)
    requires
        header_error(b) is None,
        0 <= n < HEADER_SIZE,
    ensures
        file_error(b.subrange(0, n)) == Some(truncation_error(n)),
{
    let c = b.subrange(0, n);
    if n >= 18 {
        assert(le16(c, 16) == le16(b, 16));
    }
    if n >= 20 {
        assert(le16(c, 18) == le16(b, 18));
    }
    if n >= 24 {
        assert(le32(c, 20) == le32(b, 20));
    }
}

} // verus!
