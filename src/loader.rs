use vstd::prelude::*;

use crate::bytes::le64;
use crate::error::LoadError;
use crate::file::File;
use crate::reloc::RelaEntry;
use crate::segment::{ProgramHeader, SegmentFlags};
use crate::types::{Machine, RelType, SegmentType};

verus! {

/// The address at which the loader places virtual address 0 of the guest.
pub const BASE: u64 = 0x400000;

/// Rounds `x` down to the 4 KiB boundary at or below it.
pub fn align_lo(x: usize) -> (r: usize)
    ensures
        r == x - x % 4096,
        r % 4096 == 0,
        r <= x,
{
    let r = x & !0xfffusize;
    assert(x & !0xfffusize == x - x % 4096) by (bit_vector);
    r
}

/// Host page permissions.
#[derive(Clone, Copy, Debug, PartialEq, Eq, Structural)]
pub struct Protection {
    pub read: bool,
    pub write: bool,
    pub execute: bool,
}

/// The page protection that a segment with `flags` receives: each permission
/// that the flags grant, and no other.
pub open spec fn protection_of(flags: SegmentFlags) -> Protection {
    Protection { read: flags.read, write: flags.write, execute: flags.execute }
}

/// Translates segment flags into page protection, one flag at a time.
pub fn protection_for(flags: SegmentFlags) -> (r: Protection)
    ensures
        r == protection_of(flags),
        r.read <==> flags.read,
        r.write <==> flags.write,
        r.execute <==> flags.execute,
{
    let mut p = Protection { read: false, write: false, execute: false };
    if flags.read {
        p.read = true;
    }
    if flags.write {
        p.write = true;
    }
    if flags.execute {
        p.execute = true;
    }
    p
}

/// The memory image of one loadable segment, ready to be placed at
/// `aligned_start` in the host: `padding` zero bytes up to the segment's own
/// start, then its file bytes, then zeros up to its memory size.
#[derive(Clone, Debug)]
pub struct SegmentImage {
    pub aligned_start: usize,
    pub padding: usize,
    pub bytes: Vec<u8>,
    pub protection: Protection,
}

/// Where segment `ph` starts in the host once moved by `base`.
pub open spec fn host_start(ph: ProgramHeader, base: u64) -> int {
    ph.vaddr.0 + base
}

/// The image of `ph` can be placed: its end, moved by `base`, is an address
/// of the host.
pub open spec fn fits_host(ph: ProgramHeader, base: u64) -> bool {
    host_start(ph, base) + ph.memsz.0 <= usize::MAX
}

/// The bytes of a fresh image of `ph` with `padding` bytes in front: zeros,
/// then the segment's file bytes at `padding`, then zeros up to its memory size.
pub open spec fn fresh_bytes(ph: ProgramHeader, padding: int) -> Seq<u8> {
    Seq::new(
        (padding + ph.memsz.0) as nat,
        |i: int|
            if padding <= i < padding + ph.data@.len() {
                ph.data@[i - padding]
            } else {
                0u8
            },
    )
}

/// `img` is placed where `ph` goes at `base`, with the protection its flags ask.
pub open spec fn image_placed(ph: ProgramHeader, base: u64, img: SegmentImage) -> bool {
    let start = host_start(ph, base);
    &&& img.aligned_start == start - start % 4096
    &&& img.padding == start % 4096
    &&& img.protection == protection_of(ph.flags)
}

/// `img` is the freshly mapped image of `ph` at `base`, before any relocation.
pub open spec fn fresh_image(ph: ProgramHeader, base: u64, img: SegmentImage) -> bool {
    &&& image_placed(ph, base, img)
    &&& img.bytes@ == fresh_bytes(ph, img.padding as int)
}

/// Builds the image of segment `ph` at `base`: the aligned start, the padding
/// in front, the segment's bytes copied after it and zeros up to its memory
/// size.
pub fn map_segment(ph: &ProgramHeader, base: u64) -> (r: Result<SegmentImage, LoadError>)
    requires
        ph.data@.len() == ph.filesz.0,
    ensures
        r is Ok <==> fits_host(*ph, base) && ph.filesz.0 <= ph.memsz.0,
        r matches Err(e) ==> e == (if !fits_host(*ph, base) {
            LoadError::AddressOverflow
        } else {
            LoadError::BadSegmentSize
        }),
        r matches Ok(img) ==> fresh_image(*ph, base, img),
{
    let max = usize::MAX as u64;
    if ph.vaddr.0 > max || base > max - ph.vaddr.0 || ph.memsz.0 > max - (ph.vaddr.0 + base) {
        return Err(LoadError::AddressOverflow);
    }
    if ph.filesz.0 > ph.memsz.0 {
        return Err(LoadError::BadSegmentSize);
    }
    let start = (ph.vaddr.0 + base) as usize;
    let aligned_start = align_lo(start);
    let padding = start - aligned_start;
    let memsz = ph.memsz.0 as usize;
    let filesz = ph.data.len();
    let len = padding + memsz;
    let mut bytes: Vec<u8> = Vec::with_capacity(len);
    let mut i: usize = 0;
    while i < len
        invariant
            i <= len,
            len == padding + memsz,
            filesz == ph.data@.len(),
            filesz <= memsz,
            bytes@.len() == i,
            forall|j: int|
                0 <= j < i ==> #[trigger] bytes@[j] == if padding <= j < padding + filesz {
                    ph.data@[j - padding]
                } else {
                    0u8
                },
        decreases len - i,
    {
        let v = if padding <= i && i - padding < filesz {
            ph.data[i - padding]
        } else {
            0u8
        };
        bytes.push(v);
        i = i + 1;
    }
    assert(bytes@ =~= fresh_bytes(*ph, padding as int));
    Ok(SegmentImage { aligned_start, padding, bytes, protection: protection_for(ph.flags) })
}

/// `m` with the little-endian bytes of `v` written at `p` to `p + 7`.
pub open spec fn write_le64(m: Seq<u8>, p: int, v: u64) -> Seq<u8> {
    m.update(p, (v % 0x100) as u8).update(p + 1, ((v / 0x100) % 0x100) as u8).update(
        p + 2,
        ((v / 0x1_0000) % 0x100) as u8,
    ).update(p + 3, ((v / 0x100_0000) % 0x100) as u8).update(
        p + 4,
        ((v / 0x1_0000_0000) % 0x100) as u8,
    ).update(p + 5, ((v / 0x100_0000_0000) % 0x100) as u8).update(
        p + 6,
        ((v / 0x1_0000_0000_0000) % 0x100) as u8,
    ).update(p + 7, ((v / 0x100_0000_0000_0000) % 0x100) as u8)
}

/// Whether relocation `r` targets the memory range of `ph`.
pub open spec fn reloc_in_segment(ph: ProgramHeader, r: RelaEntry) -> bool {
    ph.vaddr.0 <= r.offset.0 < ph.vaddr.0 + ph.memsz.0
}

/// Where the slot of `r` lies in an image of `ph` with `padding` bytes in front.
pub open spec fn slot_of(ph: ProgramHeader, padding: int, r: RelaEntry) -> int {
    padding + (r.offset.0 - ph.vaddr.0)
}

/// The value a relative relocation stores: the base plus the addend, modulo 2^64.
pub open spec fn relative_value(r: RelaEntry, base: u64) -> u64 {
    ((base + r.addend.0) % 0x1_0000_0000_0000_0000) as u64
}

/// Applies relocation `r` to the image bytes `m` of segment `ph`.
pub open spec fn apply_one(
    m: Seq<u8>,
    ph: ProgramHeader,
    padding: int,
    r: RelaEntry,
    base: u64,
) -> Result<Seq<u8>, LoadError> {
    if !reloc_in_segment(ph, r) {
        Ok(m)
    } else if r.rel_type != RelType::Relative {
        Err(LoadError::UnsupportedRelocation(r.rel_type.raw()))
    } else if slot_of(ph, padding, r) + 8 > m.len() {
        Err(LoadError::RelocationOutOfRange(r.offset.0))
    } else {
        Ok(write_le64(m, slot_of(ph, padding, r), relative_value(r, base)))
    }
}

/// Applies the relocations `rs`, in order, to the image bytes `m` of `ph`,
/// stopping at the first that fails.
pub open spec fn apply_all(
    m: Seq<u8>,
    ph: ProgramHeader,
    padding: int,
    rs: Seq<RelaEntry>,
    base: u64,
) -> Result<Seq<u8>, LoadError>
    decreases rs.len(),
{
    if rs.len() == 0 {
        Ok(m)
    } else {
        match apply_all(m, ph, padding, rs.drop_last(), base) {
            Ok(m2) => apply_one(m2, ph, padding, rs.last(), base),
            Err(e) => Err(e),
        }
    }
}

fn write_u64_le(bytes: &mut Vec<u8>, p: usize, v: u64)
    requires
        p + 8 <= old(bytes)@.len(),
    ensures
        final(bytes)@ == write_le64(old(bytes)@, p as int, v),
{
    // The call makes known that the vector's length fits in a usize.
    let _ = bytes.len();
    bytes[p] = (v % 0x100) as u8;
    bytes[p + 1] = ((v / 0x100) % 0x100) as u8;
    bytes[p + 2] = ((v / 0x1_0000) % 0x100) as u8;
    bytes[p + 3] = ((v / 0x100_0000) % 0x100) as u8;
    bytes[p + 4] = ((v / 0x1_0000_0000) % 0x100) as u8;
    bytes[p + 5] = ((v / 0x100_0000_0000) % 0x100) as u8;
    bytes[p + 6] = ((v / 0x1_0000_0000_0000) % 0x100) as u8;
    bytes[p + 7] = ((v / 0x100_0000_0000_0000) % 0x100) as u8;
}

/// Patches the image of segment `ph` with every relocation of `relocs` whose
/// target lies in the segment: a relative one gets the base plus its addend,
/// any other type is refused.
pub fn apply_relocations(
    img: &mut SegmentImage,
    ph: &ProgramHeader,
    relocs: &Vec<RelaEntry>,
    base: u64,
) -> (r: Result<(), LoadError>)
    ensures
        final(img).aligned_start == old(img).aligned_start,
        final(img).padding == old(img).padding,
        final(img).protection == old(img).protection,
        match apply_all(old(img).bytes@, *ph, old(img).padding as int, relocs@, base) {
            Ok(m) => r is Ok && final(img).bytes@ == m,
            Err(e) => r == Err::<(), LoadError>(e),
        },
{
    let ghost m0 = img.bytes@;
    let mut i: usize = 0;
    while i < relocs.len()
        invariant
            i <= relocs@.len(),
            img.aligned_start == old(img).aligned_start,
            img.padding == old(img).padding,
            img.protection == old(img).protection,
            m0 == old(img).bytes@,
            apply_all(m0, *ph, img.padding as int, relocs@.subrange(0, i as int), base) == Ok::<
                Seq<u8>,
                LoadError,
            >(img.bytes@),
        decreases relocs@.len() - i,
    {
        let r = relocs[i];
        proof {
            assert(relocs@.subrange(0, i + 1).drop_last() =~= relocs@.subrange(0, i as int));
            assert(relocs@.subrange(0, i + 1).last() == r);
        }
        if ph.vaddr.0 <= r.offset.0 && r.offset.0 - ph.vaddr.0 < ph.memsz.0 {
            match r.rel_type {
                RelType::Relative => {},
                t => {
                    proof {
                        assert(apply_all(m0, *ph, img.padding as int, relocs@.subrange(0, i + 1), base)
                            == Err::<Seq<u8>, LoadError>(LoadError::UnsupportedRelocation(t.raw())));
                        lemma_apply_all_err_stays(m0, *ph, img.padding as int, relocs@, base, i + 1);
                    }
                    return Err(LoadError::UnsupportedRelocation(t.to_u32()));
                },
            }
            let len = img.bytes.len();
            let into = r.offset.0 - ph.vaddr.0;
            if into > len as u64 || img.padding > len - into as usize || 8 > len - img.padding - into as usize {
                proof {
                    lemma_apply_all_err_stays(m0, *ph, img.padding as int, relocs@, base, i + 1);
                }
                return Err(LoadError::RelocationOutOfRange(r.offset.0));
            }
            let slot = img.padding + into as usize;
            let v = base.wrapping_add(r.addend.0);
            write_u64_le(&mut img.bytes, slot, v);
        }
        i = i + 1;
    }
    proof {
        assert(relocs@.subrange(0, relocs@.len() as int) =~= relocs@);
    }
    Ok(())
}

/// The image bytes of segment `ph` at `base` once `relocs` are applied, or the
/// error that stops it.
pub open spec fn segment_bytes(ph: ProgramHeader, relocs: Seq<RelaEntry>, base: u64) -> Result<
    Seq<u8>,
    LoadError,
> {
    let padding = host_start(ph, base) % 4096;
    if !fits_host(ph, base) {
        Err(LoadError::AddressOverflow)
    } else if ph.filesz.0 > ph.memsz.0 {
        Err(LoadError::BadSegmentSize)
    } else {
        apply_all(fresh_bytes(ph, padding), ph, padding, relocs, base)
    }
}

/// Whether the loader maps `ph`: a loadable segment with a non-empty memory range.
pub open spec fn is_mapped(ph: ProgramHeader) -> bool {
    ph.segment_type == SegmentType::Load && ph.memsz.0 > 0
}

/// Every program header of `f` holds exactly its file size in bytes.
pub open spec fn data_sizes_match(f: File) -> bool {
    forall|i: int|
        0 <= i < f.program_headers@.len() ==> (#[trigger] f.program_headers@[i]).data@.len()
            == f.program_headers@[i].filesz.0
}

/// The first error among the mapped segments of index `i` and above.
pub open spec fn first_load_error(
    phs: Seq<ProgramHeader>,
    relocs: Seq<RelaEntry>,
    base: u64,
    i: int,
) -> Option<LoadError>
    decreases phs.len() - i,
{
    if i < 0 || i >= phs.len() {
        None
    } else if is_mapped(phs[i]) && segment_bytes(phs[i], relocs, base) is Err {
        match segment_bytes(phs[i], relocs, base) {
            Err(e) => Some(e),
            Ok(_) => None,
        }
    } else {
        first_load_error(phs, relocs, base, i + 1)
    }
}

/// Builds the image of segment `ph` at `base` and applies `relocs` to it.
pub fn load_segment(ph: &ProgramHeader, relocs: &Vec<RelaEntry>, base: u64) -> (r: Result<
    SegmentImage,
    LoadError,
>)
    requires
        ph.data@.len() == ph.filesz.0,
    ensures
        r is Ok <==> segment_bytes(*ph, relocs@, base) is Ok,
        r matches Err(e) ==> segment_bytes(*ph, relocs@, base) == Err::<Seq<u8>, LoadError>(e),
        r matches Ok(img) ==> image_placed(*ph, base, img) && segment_bytes(*ph, relocs@, base)
            == Ok::<Seq<u8>, LoadError>(img.bytes@),
{
    let mut img = map_segment(ph, base)?;
    apply_relocations(&mut img, ph, relocs, base)?;
    Ok(img)
}

/// Prepares every segment that the loader maps: for each program header of
/// `f`, in order, the image to place in the host, or `None` for a segment that
/// is not loadable or is empty.  Only x86-64 files are loaded.
pub fn plan_load(f: &File, relocs: &Vec<RelaEntry>, base: u64) -> (r: Result<
    Vec<Option<SegmentImage>>,
    LoadError,
>)
    requires
        data_sizes_match(*f),
    ensures
        r is Ok <==> f.machine == Machine::X86_64 && first_load_error(
            f.program_headers@,
            relocs@,
            base,
            0,
        ) is None,
        r matches Err(e) ==> e == (if f.machine != Machine::X86_64 {
            LoadError::UnsupportedMachine
        } else {
            first_load_error(f.program_headers@, relocs@, base, 0)->Some_0
        }),
        r matches Ok(imgs) ==> {
            &&& imgs@.len() == f.program_headers@.len()
            &&& forall|i: int|
                0 <= i < imgs@.len() ==> ((#[trigger] imgs@[i]) is Some <==> is_mapped(
                    f.program_headers@[i],
                ))
            &&& forall|i: int|
                0 <= i < imgs@.len() ==> (#[trigger] imgs@[i] matches Some(img) ==> image_placed(
                    f.program_headers@[i],
                    base,
                    img,
                ) && segment_bytes(f.program_headers@[i], relocs@, base) == Ok::<
                    Seq<u8>,
                    LoadError,
                >(img.bytes@))
        },
{
    match f.machine {
        Machine::X86_64 => {},
        Machine::X86 => {
            return Err(LoadError::UnsupportedMachine);
        },
    }
    let phs = &f.program_headers;
    let mut out: Vec<Option<SegmentImage>> = Vec::new();
    let mut i: usize = 0;
    while i < phs.len()
        invariant
            phs == &f.program_headers,
            f.machine == Machine::X86_64,
            data_sizes_match(*f),
            i <= phs@.len(),
            out@.len() == i,
            first_load_error(phs@, relocs@, base, 0) == first_load_error(phs@, relocs@, base, i as int),
            forall|k: int| 0 <= k < i ==> ((#[trigger] out@[k]) is Some <==> is_mapped(phs@[k])),
            forall|k: int|
                0 <= k < i ==> (#[trigger] out@[k] matches Some(img) ==> image_placed(
                    phs@[k],
                    base,
                    img,
                ) && segment_bytes(phs@[k], relocs@, base) == Ok::<Seq<u8>, LoadError>(img.bytes@)),
        decreases phs@.len() - i,
    {
        let ph = &phs[i];
        assert(ph.data@.len() == ph.filesz.0);
        let mapped = match ph.segment_type {
            SegmentType::Load => ph.memsz.0 > 0,
            _ => false,
        };
        if mapped {
            let img = match load_segment(ph, relocs, base) {
                Ok(img) => img,
                Err(e) => {
                    assert(first_load_error(phs@, relocs@, base, i as int) == Some(e));
                    return Err(e);
                },
            };
            out.push(Some(img));
        } else {
            out.push(None);
        }
        i = i + 1;
    }
    Ok(out)
}

/// Where the guest's entry point lies in the host once moved by `base`.
pub fn entry_address(f: &File, base: u64) -> (r: Result<usize, LoadError>)
    ensures
        r is Ok <==> f.entry_point.0 + base <= usize::MAX,
        r matches Ok(a) ==> a == f.entry_point.0 + base,
        r matches Err(e) ==> e == LoadError::AddressOverflow,
{
    let max = usize::MAX as u64;
    if f.entry_point.0 > max || base > max - f.entry_point.0 {
        return Err(LoadError::AddressOverflow);
    }
    Ok((f.entry_point.0 + base) as usize)
}

/// Splits the digit of width `w * w` at position `a` into two digits of width `w`.
proof fn lemma_halves(x: int, a: int, w: int)
    requires
        0 <= x,
        0 < a,
        0 < w,
    ensures
        (x / a) % w + w * ((x / (a * w)) % w) == (x / a) % (w * w),
{
    vstd::arithmetic::div_mod::lemma_mod_breakdown(x / a, w, w);
    vstd::arithmetic::div_mod::lemma_div_denominator(x, a, w);
    assert(x / a >= 0) by (nonlinear_arith)
        requires
            0 <= x,
            0 < a,
    ;
}

/// The bytes written by `write_le64` read back as the value written.
pub proof fn lemma_write_le64_reads_back(m: Seq<u8>, p: int, v: u64)
    requires
        0 <= p,
        p + 8 <= m.len(),
    ensures
        write_le64(m, p, v).len() == m.len(),
        le64(write_le64(m, p, v), p) == v,
        forall|i: int|
            0 <= i < m.len() && !(p <= i < p + 8) ==> #[trigger] write_le64(m, p, v)[i] == m[i],
{
    let w = write_le64(m, p, v);
    let x = v as int;
    assert(w[p] == x % 0x100);
    assert(w[p + 1] == (x / 0x100) % 0x100);
    assert(w[p + 2] == (x / 0x1_0000) % 0x100);
    assert(w[p + 3] == (x / 0x100_0000) % 0x100);
    assert(w[p + 4] == (x / 0x1_0000_0000) % 0x100);
    assert(w[p + 5] == (x / 0x100_0000_0000) % 0x100);
    assert(w[p + 6] == (x / 0x1_0000_0000_0000) % 0x100);
    assert(w[p + 7] == (x / 0x100_0000_0000_0000) % 0x100);
    lemma_halves(x, 1, 0x100);
    lemma_halves(x, 0x1_0000, 0x100);
    lemma_halves(x, 0x1_0000_0000, 0x100);
    lemma_halves(x, 0x1_0000_0000_0000, 0x100);
    lemma_halves(x, 1, 0x1_0000);
    lemma_halves(x, 0x1_0000_0000, 0x1_0000);
    lemma_halves(x, 1, 0x1_0000_0000);
    vstd::arithmetic::div_mod::lemma_small_mod(v as nat, 0x1_0000_0000_0000_0000);
}

/// Applying relocations keeps the length of the image, and every byte that no
/// slot of an applied relocation covers.
proof fn lemma_apply_all_keeps(
    m: Seq<u8>,
    ph: ProgramHeader,
    padding: int,
    rs: Seq<RelaEntry>,
    base: u64,
    m2: Seq<u8>,
    j: int,
)
    requires
        0 <= padding,
        apply_all(m, ph, padding, rs, base) == Ok::<Seq<u8>, LoadError>(m2),
        0 <= j < m.len(),
        forall|k: int|
            0 <= k < rs.len() && reloc_in_segment(ph, #[trigger] rs[k]) ==> !(slot_of(ph, padding, rs[k])
                <= j < slot_of(ph, padding, rs[k]) + 8),
    ensures
        m2.len() == m.len(),
        m2[j] == m[j],
    decreases rs.len(),
{
    if rs.len() > 0 {
        let init = rs.drop_last();
        match apply_all(m, ph, padding, init, base) {
            Ok(m1) => {
                assert forall|k: int|
                    0 <= k < init.len() && reloc_in_segment(ph, #[trigger] init[k]) implies !(slot_of(
                        ph,
                        padding,
                        init[k],
                    ) <= j < slot_of(ph, padding, init[k]) + 8) by {
                    assert(init[k] == rs[k]);
                }
                lemma_apply_all_keeps(m, ph, padding, init, base, m1, j);
                let r = rs.last();
                assert(r == rs[rs.len() - 1]);
                if reloc_in_segment(ph, r) && r.rel_type == RelType::Relative && slot_of(ph, padding, r)
                    + 8 <= m1.len() {
                    lemma_write_le64_reads_back(m1, slot_of(ph, padding, r), relative_value(r, base));
                }
            },
            Err(_) => {},
        }
    }
}

/// After loading, each byte of a mapped segment's file image lies at its
/// virtual address moved by the base, unless the slot of a relocation covers it.
pub proof fn lemma_segment_image_copied(
    ph: ProgramHeader,
    relocs: Seq<RelaEntry>,
    base: u64,
    img: SegmentImage,
    i: int,
)
    requires
        ph.data@.len() == ph.filesz.0,
        image_placed(ph, base, img),
        segment_bytes(ph, relocs, base) == Ok::<Seq<u8>, LoadError>(img.bytes@),
        0 <= i < ph.data@.len(),
        forall|k: int|
            0 <= k < relocs.len() && reloc_in_segment(ph, #[trigger] relocs[k]) ==> !(slot_of(
                ph,
                img.padding as int,
                relocs[k],
            ) <= img.padding + i < slot_of(ph, img.padding as int, relocs[k]) + 8),
    ensures
        img.aligned_start + img.padding + i == ph.vaddr.0 + base + i,
        img.padding + i < img.bytes@.len(),
        img.bytes@[img.padding + i] == ph.data@[i],
{
    let f = fresh_bytes(ph, img.padding as int);
    lemma_apply_all_keeps(f, ph, img.padding as int, relocs, base, img.bytes@, img.padding + i);
}

/// After loading, the slot of each relocation that targets a mapped segment
/// lies at the relocation's offset moved by the base, and reads back,
/// little-endian, as the base plus its addend, unless the slot of a later
/// relocation overlaps it.
pub proof fn lemma_relocation_written(
    m: Seq<u8>,
    ph: ProgramHeader,
    padding: int,
    rs: Seq<RelaEntry>,
    base: u64,
    m2: Seq<u8>,
    k: int,
)
    requires
        0 <= padding,
        apply_all(m, ph, padding, rs, base) == Ok::<Seq<u8>, LoadError>(m2),
        0 <= k < rs.len(),
        reloc_in_segment(ph, rs[k]),
        forall|j: int|
            k < j < rs.len() && reloc_in_segment(ph, #[trigger] rs[j]) ==> slot_of(ph, padding, rs[j]) + 8
                <= slot_of(ph, padding, rs[k]) || slot_of(ph, padding, rs[k]) + 8 <= slot_of(
                ph,
                padding,
                rs[j],
            ),
    ensures
        rs[k].rel_type == RelType::Relative,
        0 <= slot_of(ph, padding, rs[k]),
        slot_of(ph, padding, rs[k]) + 8 <= m2.len(),
        le64(m2, slot_of(ph, padding, rs[k])) == relative_value(rs[k], base),
    decreases rs.len(),
{
    let init = rs.drop_last();
    let r = rs.last();
    assert(r == rs[rs.len() - 1]);
    match apply_all(m, ph, padding, init, base) {
        Ok(m1) => {
            if k == rs.len() - 1 {
                lemma_write_le64_reads_back(m1, slot_of(ph, padding, r), relative_value(r, base));
            } else {
                assert(init[k] == rs[k]);
                assert forall|j: int|
                    k < j < init.len() && reloc_in_segment(ph, #[trigger] init[j]) implies slot_of(
                        ph,
                        padding,
                        init[j],
                    ) + 8 <= slot_of(ph, padding, init[k]) || slot_of(ph, padding, init[k]) + 8
                        <= slot_of(ph, padding, init[j]) by {
                    assert(init[j] == rs[j]);
                }
                lemma_relocation_written(m, ph, padding, init, base, m1, k);
                if reloc_in_segment(ph, r) {
                    lemma_write_le64_reads_back(m1, slot_of(ph, padding, r), relative_value(r, base));
                }
            }
        },
        Err(_) => {},
    }
}

/// The slot of a relocation that targets a placed segment lies, in the host,
/// at the relocation's offset moved by the base.
pub proof fn lemma_slot_address(ph: ProgramHeader, base: u64, img: SegmentImage, r: RelaEntry)
    requires
        image_placed(ph, base, img),
        reloc_in_segment(ph, r),
    ensures
        img.aligned_start + slot_of(ph, img.padding as int, r) == r.offset.0 + base,
{
}

/// Once applying relocations fails, applying more of them fails the same way.
proof fn lemma_apply_all_err_stays(
    m: Seq<u8>,
    ph: ProgramHeader,
    padding: int,
    rs: Seq<RelaEntry>,
    base: u64,
    i: int,
)
    requires
        0 <= i <= rs.len(),
        apply_all(m, ph, padding, rs.subrange(0, i), base) is Err,
    ensures
        apply_all(m, ph, padding, rs, base) == apply_all(m, ph, padding, rs.subrange(0, i), base),
    decreases rs.len() - i,
{
    if i < rs.len() {
        assert(rs.subrange(0, i + 1).drop_last() =~= rs.subrange(0, i));
        lemma_apply_all_err_stays(m, ph, padding, rs, base, i + 1);
    } else {
        assert(rs.subrange(0, i) =~= rs);
    }
}

} // verus!
