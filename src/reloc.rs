use vstd::prelude::*;

use crate::addr::Addr;
use crate::bytes::{le64, read_u64};
use crate::types::RelType;

verus! {

/// Size in bytes of the part of a relocation entry that is decoded.
pub const RELA_SIZE: u64 = 24;

/// One relocation with an explicit addend.
#[derive(Clone, Copy, Debug, PartialEq, Eq, Structural)]
pub struct RelaEntry {
    /// Address of the slot to patch, before the load base is added.
    pub offset: Addr,
    pub rel_type: RelType,
    pub sym: u32,
    /// The signed addend, as its two's complement bits.
    pub addend: Addr,
}

/// `e` is the relocation entry stored at `p` of `d`: the low 32 bits of the
/// info word give the type and the high 32 bits the symbol index.
pub open spec fn rela_at(d: Seq<u8>, p: int, e: RelaEntry) -> bool {
    &&& e.offset.0 == le64(d, p)
    &&& e.rel_type.decodes((le64(d, p + 8) % 0x1_0000_0000) as u32)
    &&& e.sym == le64(d, p + 8) / 0x1_0000_0000
    &&& e.addend.0 == le64(d, p + 16)
}

/// `rs` is the table of entries of `ent` bytes each that `d` holds: one entry
/// for each whole stride of `ent` bytes.
pub open spec fn rela_table(d: Seq<u8>, ent: int, rs: Seq<RelaEntry>) -> bool {
    &&& rs.len() * ent <= d.len() < (rs.len() + 1) * ent
    &&& forall|i: int| 0 <= i < rs.len() ==> rela_at(d, i * ent, #[trigger] rs[i])
}

impl RelaEntry {
    /// Decodes the entry stored at `p` of `d`.
    pub fn parse(d: &[u8], p: usize) -> (r: RelaEntry)
        requires
            p + 24 <= d@.len(),
        ensures
            rela_at(d@, p as int, r),
    {
        // The call makes known that the slice's length fits in a usize.
        let _ = d.len();
        let offset = read_u64(d, p);
        let info = read_u64(d, p + 8);
        let addend = read_u64(d, p + 16);
        let sym = (info >> 32u64) as u32;
        let ty = (info & 0xffff_ffffu64) as u32;
        assert(info >> 32u64 == info / 0x1_0000_0000) by (bit_vector);
        assert(info & 0xffff_ffffu64 == info % 0x1_0000_0000) by (bit_vector);
        RelaEntry { offset: Addr(offset), rel_type: RelType::from_u32(ty), sym, addend: Addr(addend) }
    }
}

/// Decodes a relocation table of entries `ent` bytes apart.
pub fn parse_rela_table(d: &[u8], ent: u64) -> (r: Vec<RelaEntry>)
    requires
        ent >= RELA_SIZE,
    ensures
        rela_table(d@, ent as int, r@),
{
    let n = d.len();
    let mut out: Vec<RelaEntry> = Vec::new();
    let mut p: usize = 0;
    assert(out@.len() * ent == 0) by (nonlinear_arith)
        requires
            out@.len() == 0,
    ;
    while ent <= (n - p) as u64
        invariant
            n == d@.len(),
            ent >= RELA_SIZE,
            p == out@.len() * ent,
            p <= n,
            forall|i: int| 0 <= i < out@.len() ==> rela_at(d@, i * ent, #[trigger] out@[i]),
        decreases n - p,
    {
        let e = RelaEntry::parse(d, p);
        out.push(e);
        assert(out@[out@.len() - 1] == e);
        assert((out@.len() as int) * (ent as int) == (out@.len() - 1) * (ent as int) + ent)
            by (nonlinear_arith);
        p = p + ent as usize;
    }
    assert(d@.len() < (out@.len() + 1) * ent) by (nonlinear_arith)
        requires
            p == out@.len() * ent,
            p + ent > d@.len(),
    ;
    out
}

} // verus!
