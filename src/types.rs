use vstd::prelude::*;

verus! {

/// The kind of an ELF file.
#[derive(Clone, Copy, Debug, PartialEq, Eq, Structural)]
pub enum Type {
    /// No file type.
    NoType,
    /// Relocatable object.
    Rel,
    /// Executable at a fixed address.
    Exec,
    /// Position-independent executable or shared object.
    Dyn,
    /// Core dump.
    Core,
}

impl Type {
    /// The on-disk code of this variant.
    pub open spec fn raw(self) -> u16 {
        match self {
            Type::NoType => 0,
            Type::Rel => 1,
            Type::Exec => 2,
            Type::Dyn => 3,
            Type::Core => 4,
        }
    }

    /// Whether `x` is the code of some variant.
    pub open spec fn is_code(x: u16) -> bool {
        x == 0 || x == 1 || x == 2 || x == 3 || x == 4
    }

    /// Returns the on-disk code of this variant.
    pub fn to_u16(self) -> (r: u16)
        ensures
            r == self.raw(),
    {
        match self {
            Type::NoType => 0,
            Type::Rel => 1,
            Type::Exec => 2,
            Type::Dyn => 3,
            Type::Core => 4,
        }
    }

    /// Decodes a code; the code itself is the error when no variant has it.
    pub fn try_from(x: u16) -> (r: Result<Type, u16>)
        ensures
            r is Ok <==> Type::is_code(x),
            r matches Ok(t) ==> t.raw() == x,
            r matches Err(e) ==> e == x,
    {
        match Type::from_u16(x) {
            Some(t) => Ok(t),
            None => Err(x),
        }
    }

    /// Decodes a code; `None` when no variant has it.
    pub fn from_u16(x: u16) -> (r: Option<Type>)
        ensures
            r is Some <==> Type::is_code(x),
            r matches Some(t) ==> t.raw() == x,
    {
        match x {
            0 => Some(Type::NoType),
            1 => Some(Type::Rel),
            2 => Some(Type::Exec),
            3 => Some(Type::Dyn),
            4 => Some(Type::Core),
            _ => None,
        }
    }
}

/// The instruction set an ELF file targets.
#[derive(Clone, Copy, Debug, PartialEq, Eq, Structural)]
pub enum Machine {
    /// Intel 80386.
    X86,
    /// AMD64.
    X86_64,
}

impl Machine {
    /// The on-disk code of this variant.
    pub open spec fn raw(self) -> u16 {
        match self {
            Machine::X86 => 0x03,
            Machine::X86_64 => 0x3e,
        }
    }

    /// Whether `x` is the code of some variant.
    pub open spec fn is_code(x: u16) -> bool {
        x == 0x03 || x == 0x3e
    }

    /// Returns the on-disk code of this variant.
    pub fn to_u16(self) -> (r: u16)
        ensures
            r == self.raw(),
    {
        match self {
            Machine::X86 => 0x03,
            Machine::X86_64 => 0x3e,
        }
    }

    /// Decodes a code; the code itself is the error when no variant has it.
    pub fn try_from(x: u16) -> (r: Result<Machine, u16>)
        ensures
            r is Ok <==> Machine::is_code(x),
            r matches Ok(t) ==> t.raw() == x,
            r matches Err(e) ==> e == x,
    {
        match Machine::from_u16(x) {
            Some(t) => Ok(t),
            None => Err(x),
        }
    }

    /// Decodes a code; `None` when no variant has it.
    pub fn from_u16(x: u16) -> (r: Option<Machine>)
        ensures
            r is Some <==> Machine::is_code(x),
            r matches Some(t) ==> t.raw() == x,
    {
        match x {
            0x03 => Some(Machine::X86),
            0x3e => Some(Machine::X86_64),
            _ => None,
        }
    }
}

/// The type of a program header.
#[derive(Clone, Copy, Debug, PartialEq, Eq, Structural)]
pub enum SegmentType {
    /// Unused entry.
    Null,
    /// Loadable segment.
    Load,
    /// Dynamic linking table.
    Dynamic,
    /// Path of the program interpreter.
    Interp,
    /// Auxiliary notes.
    Note,
    /// Reserved.
    ShLib,
    /// The program header table itself.
    ProgramHeader,
    /// Thread-local storage template.
    Tls,
    /// Exception handling frame table.
    GnuEhFrame,
    /// Stack executability.
    GnuStack,
    /// Read-only after relocation.
    GnuRelRo,
    /// A code that has no variant of its own.
    Other(u32),
}

impl SegmentType {
    /// The on-disk code of this value.
    pub open spec fn raw(self) -> u32 {
        match self {
            SegmentType::Null => 0,
            SegmentType::Load => 1,
            SegmentType::Dynamic => 2,
            SegmentType::Interp => 3,
            SegmentType::Note => 4,
            SegmentType::ShLib => 5,
            SegmentType::ProgramHeader => 6,
            SegmentType::Tls => 7,
            SegmentType::GnuEhFrame => 0x6474e550,
            SegmentType::GnuStack => 0x6474e551,
            SegmentType::GnuRelRo => 0x6474e552,
            SegmentType::Other(x) => x,
        }
    }

    /// Whether `x` is the code of a named variant.
    pub open spec fn is_named(x: u32) -> bool {
        x == 0
            || x == 1
            || x == 2
            || x == 3
            || x == 4
            || x == 5
            || x == 6
            || x == 7
            || x == 0x6474e550
            || x == 0x6474e551
            || x == 0x6474e552
    }

    /// `self` is what decoding the code `x` gives.
    pub open spec fn decodes(self, x: u32) -> bool {
        self.raw() == x && (self is Other ==> !SegmentType::is_named(x))
    }

    /// Returns the on-disk code of this value.
    pub fn to_u32(self) -> (r: u32)
        ensures
            r == self.raw(),
    {
        match self {
            SegmentType::Null => 0,
            SegmentType::Load => 1,
            SegmentType::Dynamic => 2,
            SegmentType::Interp => 3,
            SegmentType::Note => 4,
            SegmentType::ShLib => 5,
            SegmentType::ProgramHeader => 6,
            SegmentType::Tls => 7,
            SegmentType::GnuEhFrame => 0x6474e550,
            SegmentType::GnuStack => 0x6474e551,
            SegmentType::GnuRelRo => 0x6474e552,
            SegmentType::Other(x) => x,
        }
    }

    /// Decodes a code; codes without a named variant are kept in `Other`.
    pub fn from_u32(x: u32) -> (r: SegmentType)
        ensures
            r.decodes(x),
            r is Other <==> !SegmentType::is_named(x),
    {
        match x {
            0 => SegmentType::Null,
            1 => SegmentType::Load,
            2 => SegmentType::Dynamic,
            3 => SegmentType::Interp,
            4 => SegmentType::Note,
            5 => SegmentType::ShLib,
            6 => SegmentType::ProgramHeader,
            7 => SegmentType::Tls,
            0x6474e550 => SegmentType::GnuEhFrame,
            0x6474e551 => SegmentType::GnuStack,
            0x6474e552 => SegmentType::GnuRelRo,
            _ => SegmentType::Other(x),
        }
    }
}

/// The tag of an entry of the dynamic table.
#[derive(Clone, Copy, Debug, PartialEq, Eq, Structural)]
pub enum DynamicTag {
    /// End of the table.
    Null,
    /// The `DT_NEEDED` entry.
    Needed,
    /// The `DT_PLTRELSZ` entry.
    PltRelSz,
    /// The `DT_PLTGOT` entry.
    PltGot,
    /// The `DT_HASH` entry.
    Hash,
    /// The `DT_STRTAB` entry.
    StrTab,
    /// The `DT_SYMTAB` entry.
    SymTab,
    /// Address of the relocation table with addends.
    Rela,
    /// Size in bytes of that table.
    RelaSz,
    /// Size in bytes of one entry of that table.
    RelaEnt,
    /// The `DT_STRSZ` entry.
    StrSz,
    /// The `DT_SYMENT` entry.
    SymEnt,
    /// The `DT_INIT` entry.
    Init,
    /// The `DT_FINI` entry.
    Fini,
    /// The `DT_SONAME` entry.
    SoName,
    /// The `DT_RPATH` entry.
    RPath,
    /// The `DT_SYMBOLIC` entry.
    Symbolic,
    /// The `DT_REL` entry.
    Rel,
    /// The `DT_RELSZ` entry.
    RelSz,
    /// The `DT_RELENT` entry.
    RelEnt,
    /// The `DT_PLTREL` entry.
    PltRel,
    /// The `DT_DEBUG` entry.
    Debug,
    /// The `DT_TEXTREL` entry.
    TextRel,
    /// The `DT_JMPREL` entry.
    JmpRel,
    /// The `DT_BINDNOW` entry.
    BindNow,
    /// The `DT_INITARRAY` entry.
    InitArray,
    /// The `DT_FINIARRAY` entry.
    FiniArray,
    /// The `DT_INITARRAYSZ` entry.
    InitArraySz,
    /// The `DT_FINIARRAYSZ` entry.
    FiniArraySz,
    /// A code that has no variant of its own.
    Other(u64),
}

impl DynamicTag {
    /// The on-disk code of this value.
    pub open spec fn raw(self) -> u64 {
        match self {
            DynamicTag::Null => 0,
            DynamicTag::Needed => 1,
            DynamicTag::PltRelSz => 2,
            DynamicTag::PltGot => 3,
            DynamicTag::Hash => 4,
            DynamicTag::StrTab => 5,
            DynamicTag::SymTab => 6,
            DynamicTag::Rela => 7,
            DynamicTag::RelaSz => 8,
            DynamicTag::RelaEnt => 9,
            DynamicTag::StrSz => 10,
            DynamicTag::SymEnt => 11,
            DynamicTag::Init => 12,
            DynamicTag::Fini => 13,
            DynamicTag::SoName => 14,
            DynamicTag::RPath => 15,
            DynamicTag::Symbolic => 16,
            DynamicTag::Rel => 17,
            DynamicTag::RelSz => 18,
            DynamicTag::RelEnt => 19,
            DynamicTag::PltRel => 20,
            DynamicTag::Debug => 21,
            DynamicTag::TextRel => 22,
            DynamicTag::JmpRel => 23,
            DynamicTag::BindNow => 24,
            DynamicTag::InitArray => 25,
            DynamicTag::FiniArray => 26,
            DynamicTag::InitArraySz => 27,
            DynamicTag::FiniArraySz => 28,
            DynamicTag::Other(x) => x,
        }
    }

    /// Whether `x` is the code of a named variant.
    pub open spec fn is_named(x: u64) -> bool {
        x == 0
            || x == 1
            || x == 2
            || x == 3
            || x == 4
            || x == 5
            || x == 6
            || x == 7
            || x == 8
            || x == 9
            || x == 10
            || x == 11
            || x == 12
            || x == 13
            || x == 14
            || x == 15
            || x == 16
            || x == 17
            || x == 18
            || x == 19
            || x == 20
            || x == 21
            || x == 22
            || x == 23
            || x == 24
            || x == 25
            || x == 26
            || x == 27
            || x == 28
    }

    /// `self` is what decoding the code `x` gives.
    pub open spec fn decodes(self, x: u64) -> bool {
        self.raw() == x && (self is Other ==> !DynamicTag::is_named(x))
    }

    /// Returns the on-disk code of this value.
    pub fn to_u64(self) -> (r: u64)
        ensures
            r == self.raw(),
    {
        match self {
            DynamicTag::Null => 0,
            DynamicTag::Needed => 1,
            DynamicTag::PltRelSz => 2,
            DynamicTag::PltGot => 3,
            DynamicTag::Hash => 4,
            DynamicTag::StrTab => 5,
            DynamicTag::SymTab => 6,
            DynamicTag::Rela => 7,
            DynamicTag::RelaSz => 8,
            DynamicTag::RelaEnt => 9,
            DynamicTag::StrSz => 10,
            DynamicTag::SymEnt => 11,
            DynamicTag::Init => 12,
            DynamicTag::Fini => 13,
            DynamicTag::SoName => 14,
            DynamicTag::RPath => 15,
            DynamicTag::Symbolic => 16,
            DynamicTag::Rel => 17,
            DynamicTag::RelSz => 18,
            DynamicTag::RelEnt => 19,
            DynamicTag::PltRel => 20,
            DynamicTag::Debug => 21,
            DynamicTag::TextRel => 22,
            DynamicTag::JmpRel => 23,
            DynamicTag::BindNow => 24,
            DynamicTag::InitArray => 25,
            DynamicTag::FiniArray => 26,
            DynamicTag::InitArraySz => 27,
            DynamicTag::FiniArraySz => 28,
            DynamicTag::Other(x) => x,
        }
    }

    /// Decodes a code; codes without a named variant are kept in `Other`.
    pub fn from_u64(x: u64) -> (r: DynamicTag)
        ensures
            r.decodes(x),
            r is Other <==> !DynamicTag::is_named(x),
    {
        match x {
            0 => DynamicTag::Null,
            1 => DynamicTag::Needed,
            2 => DynamicTag::PltRelSz,
            3 => DynamicTag::PltGot,
            4 => DynamicTag::Hash,
            5 => DynamicTag::StrTab,
            6 => DynamicTag::SymTab,
            7 => DynamicTag::Rela,
            8 => DynamicTag::RelaSz,
            9 => DynamicTag::RelaEnt,
            10 => DynamicTag::StrSz,
            11 => DynamicTag::SymEnt,
            12 => DynamicTag::Init,
            13 => DynamicTag::Fini,
            14 => DynamicTag::SoName,
            15 => DynamicTag::RPath,
            16 => DynamicTag::Symbolic,
            17 => DynamicTag::Rel,
            18 => DynamicTag::RelSz,
            19 => DynamicTag::RelEnt,
            20 => DynamicTag::PltRel,
            21 => DynamicTag::Debug,
            22 => DynamicTag::TextRel,
            23 => DynamicTag::JmpRel,
            24 => DynamicTag::BindNow,
            25 => DynamicTag::InitArray,
            26 => DynamicTag::FiniArray,
            27 => DynamicTag::InitArraySz,
            28 => DynamicTag::FiniArraySz,
            _ => DynamicTag::Other(x),
        }
    }
}

/// The type of an x86-64 relocation.
#[derive(Clone, Copy, Debug, PartialEq, Eq, Structural)]
pub enum RelType {
    /// No relocation.
    NoReloc,
    /// Symbol plus addend, 64 bits.
    R64,
    /// PC-relative, 32 bits.
    Pc32,
    /// GOT entry, 32 bits.
    Got32,
    /// PLT entry, 32 bits.
    Plt32,
    /// Copy the symbol at run time.
    Copy,
    /// GOT entry of a symbol.
    GlobDat,
    /// PLT slot of a symbol.
    JumpSlot,
    /// Load base plus addend.
    Relative,
    /// A code that has no variant of its own.
    Other(u32),
}

impl RelType {
    /// The on-disk code of this value.
    pub open spec fn raw(self) -> u32 {
        match self {
            RelType::NoReloc => 0,
            RelType::R64 => 1,
            RelType::Pc32 => 2,
            RelType::Got32 => 3,
            RelType::Plt32 => 4,
            RelType::Copy => 5,
            RelType::GlobDat => 6,
            RelType::JumpSlot => 7,
            RelType::Relative => 8,
            RelType::Other(x) => x,
        }
    }

    /// Whether `x` is the code of a named variant.
    pub open spec fn is_named(x: u32) -> bool {
        x == 0
            || x == 1
            || x == 2
            || x == 3
            || x == 4
            || x == 5
            || x == 6
            || x == 7
            || x == 8
    }

    /// `self` is what decoding the code `x` gives.
    pub open spec fn decodes(self, x: u32) -> bool {
        self.raw() == x && (self is Other ==> !RelType::is_named(x))
    }

    /// Returns the on-disk code of this value.
    pub fn to_u32(self) -> (r: u32)
        ensures
            r == self.raw(),
    {
        match self {
            RelType::NoReloc => 0,
            RelType::R64 => 1,
            RelType::Pc32 => 2,
            RelType::Got32 => 3,
            RelType::Plt32 => 4,
            RelType::Copy => 5,
            RelType::GlobDat => 6,
            RelType::JumpSlot => 7,
            RelType::Relative => 8,
            RelType::Other(x) => x,
        }
    }

    /// Decodes a code; codes without a named variant are kept in `Other`.
    pub fn from_u32(x: u32) -> (r: RelType)
        ensures
            r.decodes(x),
            r is Other <==> !RelType::is_named(x),
    {
        match x {
            0 => RelType::NoReloc,
            1 => RelType::R64,
            2 => RelType::Pc32,
            3 => RelType::Got32,
            4 => RelType::Plt32,
            5 => RelType::Copy,
            6 => RelType::GlobDat,
            7 => RelType::JumpSlot,
            8 => RelType::Relative,
            _ => RelType::Other(x),
        }
    }
}

/// Each variant's code decodes back to that variant: encoding is total and
/// decoding recovers it, for the closed and the open enumerations alike.
pub proof fn lemma_codes_round_trip(t: Type, m: Machine, s: SegmentType, d: DynamicTag, r: RelType)
    ensures
        Type::is_code(t.raw()),
        forall|u: Type| #[trigger] u.raw() == t.raw() ==> u == t,
        Machine::is_code(m.raw()),
        forall|u: Machine| #[trigger] u.raw() == m.raw() ==> u == m,
        !(s is Other) ==> forall|u: SegmentType| #[trigger] u.decodes(s.raw()) ==> u == s,
        !(d is Other) ==> forall|u: DynamicTag| #[trigger] u.decodes(d.raw()) ==> u == d,
        !(r is Other) ==> forall|u: RelType| #[trigger] u.decodes(r.raw()) ==> u == r,
{
}

} // verus!
