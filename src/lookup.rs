use vstd::prelude::*;

use crate::addr::Addr;
use crate::error::LoadError;
use crate::file::{load_holds, File};
use crate::reloc::{parse_rela_table, rela_table, RelaEntry, RELA_SIZE};
use crate::segment::{copy_range, DynamicEntry, ProgramHeader, SegmentContents};
use crate::types::DynamicTag;

verus! {

/// `k` is the first segment of `phs` that carries a dynamic table.
pub open spec fn is_first_dynamic(phs: Seq<ProgramHeader>, k: int) -> bool {
    &&& 0 <= k < phs.len()
    &&& phs[k].contents is Dynamic
    &&& forall|j: int| 0 <= j < k ==> !((#[trigger] phs[j]).contents is Dynamic)
}

/// The first segment of `phs` that carries a dynamic table.
pub open spec fn first_dynamic(phs: Seq<ProgramHeader>) -> Option<int> {
    if exists|k: int| is_first_dynamic(phs, k) {
        Some(choose|k: int| is_first_dynamic(phs, k))
    } else {
        None
    }
}

/// `k` is the first entry of `es` tagged `t`.
pub open spec fn is_first_tag(es: Seq<DynamicEntry>, t: DynamicTag, k: int) -> bool {
    &&& 0 <= k < es.len()
    &&& es[k].tag == t
    &&& forall|j: int| 0 <= j < k ==> (#[trigger] es[j]).tag != t
}

/// The value of the first entry of `es` tagged `t`.
pub open spec fn tag_value(es: Seq<DynamicEntry>, t: DynamicTag) -> Option<Addr> {
    if exists|k: int| is_first_tag(es, t, k) {
        Some(es[choose|k: int| is_first_tag(es, t, k)].value)
    } else {
        None
    }
}

/// `k` is the first loadable segment of `phs` whose memory holds `a`.
pub open spec fn is_first_holder(phs: Seq<ProgramHeader>, a: Addr, k: int) -> bool {
    &&& 0 <= k < phs.len()
    &&& load_holds(phs[k], a)
    &&& forall|j: int| 0 <= j < k ==> !load_holds(#[trigger] phs[j], a)
}

/// The first loadable segment of `phs` whose memory holds `a`.
pub open spec fn first_holder(phs: Seq<ProgramHeader>, a: Addr) -> Option<int> {
    if exists|k: int| is_first_holder(phs, a, k) {
        Some(choose|k: int| is_first_holder(phs, a, k))
    } else {
        None
    }
}

/// The entries of the first dynamic table of `f`; empty when there is none.
pub open spec fn dynamic_entries(f: File) -> Seq<DynamicEntry> {
    match first_dynamic(f.program_headers@) {
        Some(k) => match f.program_headers@[k].contents {
            SegmentContents::Dynamic(es) => es@,
            SegmentContents::Unknown => Seq::empty(),
        },
        None => Seq::empty(),
    }
}

/// Where the relocation table of `f` lies, when the dynamic table gives its
/// address, size and entry size and a loadable segment holds that address: the
/// segment's index, the table's start within the segment's bytes, its size
/// and its entry size.
pub open spec fn rela_source(f: File) -> Option<(int, int, int, int)> {
    let es = dynamic_entries(f);
    match (
        tag_value(es, DynamicTag::Rela),
        tag_value(es, DynamicTag::RelaSz),
        tag_value(es, DynamicTag::RelaEnt),
    ) {
        (Some(a), Some(sz), Some(ent)) => match first_holder(f.program_headers@, a) {
            Some(k) => Some((k, a.0 - f.program_headers@[k].vaddr.0, sz.0 as int, ent.0 as int)),
            None => None,
        },
        _ => None,
    }
}

/// The relocation table of `f` can be located and read.
pub open spec fn rela_readable(f: File) -> bool {
    match rela_source(f) {
        Some((k, s, sz, ent)) => ent >= RELA_SIZE && s + sz <= f.program_headers@[k].data@.len(),
        None => false,
    }
}

/// The bytes of the relocation table of `f`, when it is readable.
pub open spec fn rela_bytes(f: File) -> Seq<u8> {
    match rela_source(f) {
        Some((k, s, sz, ent)) => f.program_headers@[k].data@.subrange(s, s + sz),
        None => Seq::empty(),
    }
}

/// The entry size of the relocation table of `f`, when it is readable.
pub open spec fn rela_ent(f: File) -> int {
    match rela_source(f) {
        Some((k, s, sz, ent)) => ent,
        None => 0,
    }
}

/// Returns the value of the first entry of `es` tagged `t`.
pub fn find_tag(es: &Vec<DynamicEntry>, t: DynamicTag) -> (r: Option<Addr>)
    ensures
        r == tag_value(es@, t),
{
    let mut i: usize = 0;
    while i < es.len()
        invariant
            i <= es@.len(),
            forall|j: int| 0 <= j < i ==> (#[trigger] es@[j]).tag != t,
        decreases es@.len() - i,
    {
        if es[i].tag == t {
            assert(is_first_tag(es@, t, i as int));
            assert forall|k: int| is_first_tag(es@, t, k) implies k == i by {
                if k < i {
                    assert(es@[k].tag != t);
                } else if k > i {
                    assert(es@[i as int].tag != t);
                }
            }
            return Some(es[i].value);
        }
        i = i + 1;
    }
    None
}

impl File {
    /// Returns the index of the first segment that carries a dynamic table.
    pub fn dynamic_segment(&self) -> (r: Option<usize>)
        ensures
            r == (match first_dynamic(self.program_headers@) {
                Some(k) => Some(k as usize),
                None => None::<usize>,
            }),
            r matches Some(k) ==> is_first_dynamic(self.program_headers@, k as int),
    {
        let phs = &self.program_headers;
        let mut i: usize = 0;
        while i < phs.len()
            invariant
                phs == &self.program_headers,
                i <= phs@.len(),
                forall|j: int| 0 <= j < i ==> !((#[trigger] phs@[j]).contents is Dynamic),
            decreases phs@.len() - i,
        {
            match phs[i].contents {
                SegmentContents::Dynamic(_) => {
                    assert(is_first_dynamic(phs@, i as int));
                    assert forall|k: int| is_first_dynamic(phs@, k) implies k == i by {
                        if k < i {
                            assert(!(phs@[k].contents is Dynamic));
                        } else if k > i {
                            assert(phs@[i as int].contents is Dynamic);
                        }
                    }
                    return Some(i);
                },
                SegmentContents::Unknown => {},
            }
            i = i + 1;
        }
        None
    }

    /// Returns the index of the first loadable segment whose memory range
    /// `[vaddr, vaddr + memsz)` holds `a`.
    pub fn segment_at(&self, a: Addr) -> (r: Option<usize>)
        ensures
            r == (match first_holder(self.program_headers@, a) {
                Some(k) => Some(k as usize),
                None => None::<usize>,
            }),
            r matches Some(k) ==> is_first_holder(self.program_headers@, a, k as int),
    {
        let phs = &self.program_headers;
        let mut i: usize = 0;
        while i < phs.len()
            invariant
                phs == &self.program_headers,
                i <= phs@.len(),
                forall|j: int| 0 <= j < i ==> !load_holds(#[trigger] phs@[j], a),
            decreases phs@.len() - i,
        {
            if crate::file::holds_entry(&phs[i], a) {
                assert(is_first_holder(phs@, a, i as int));
                assert forall|k: int| is_first_holder(phs@, a, k) implies k == i by {
                    if k < i {
                        assert(!load_holds(phs@[k], a));
                    } else if k > i {
                        assert(load_holds(phs@[i as int], a));
                    }
                }
                return Some(i);
            }
            i = i + 1;
        }
        None
    }
    /// Reads the relocation table that the first dynamic table names.  A file
    /// without a `Rela` entry has no relocations; one whose table cannot be
    /// located or does not fit in its segment gives `RelaTableUnreadable`.
    pub fn read_rela_entries(&self) -> (r: Result<Vec<RelaEntry>, LoadError>)
        ensures
            r is Ok <==> (tag_value(dynamic_entries(*self), DynamicTag::Rela) is None
                || rela_readable(*self)),
            r matches Err(e) ==> e == LoadError::RelaTableUnreadable,
            tag_value(dynamic_entries(*self), DynamicTag::Rela) is None ==> (r matches Ok(rs)
                && rs@.len() == 0),
            rela_readable(*self) ==> (r matches Ok(rs) && rela_table(
                rela_bytes(*self),
                rela_ent(*self),
                rs@,
            )),
    {
        let es = match self.dynamic_segment() {
            Some(k) => match &self.program_headers[k].contents {
                SegmentContents::Dynamic(es) => es,
                SegmentContents::Unknown => {
                    return Ok(Vec::new());
                },
            },
            None => {
                return Ok(Vec::new());
            },
        };
        let addr = match find_tag(es, DynamicTag::Rela) {
            Some(a) => a,
            None => {
                return Ok(Vec::new());
            },
        };
        let sz = match find_tag(es, DynamicTag::RelaSz) {
            Some(a) => a,
            None => {
                return Err(LoadError::RelaTableUnreadable);
            },
        };
        let ent = match find_tag(es, DynamicTag::RelaEnt) {
            Some(a) => a,
            None => {
                return Err(LoadError::RelaTableUnreadable);
            },
        };
        let k = match self.segment_at(addr) {
            Some(k) => k,
            None => {
                return Err(LoadError::RelaTableUnreadable);
            },
        };
        let ph = &self.program_headers[k];
        let start = addr.0 - ph.vaddr.0;
        let n = ph.data.len();
        if ent.0 < RELA_SIZE || start > n as u64 || sz.0 > n as u64 - start {
            return Err(LoadError::RelaTableUnreadable);
        }
        let bytes = copy_range(ph.data.as_slice(), start as usize, sz.0 as usize);
        Ok(parse_rela_table(bytes.as_slice(), ent.0))
    }
}

} // verus!
