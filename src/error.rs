use vstd::prelude::*;

verus! {

/// What went wrong while decoding a file.
#[derive(Clone, Copy, Debug, PartialEq, Eq, Structural)]
pub enum ErrorKind {
    /// The first four bytes are not `7f 'E' 'L' 'F'`.
    BadMagic,
    /// The class byte is not that of a 64-bit file.
    UnsupportedClass,
    /// The data encoding byte is not little-endian.
    UnsupportedEndianness,
    /// The identification version byte is not 1.
    UnsupportedVersion,
    /// The OS ABI byte is neither System V nor Linux.
    UnsupportedOsAbi,
    /// The file type field holds this unknown code.
    UnknownType(u16),
    /// The machine field holds this unknown code.
    UnknownMachine(u16),
    /// The input ends before the field is complete.
    Truncated,
    /// The second version field is not 1.
    BadVersionBis,
    /// No loadable segment, or more than one, holds the entry point.
    EntryPointNotInAnySegment,
}

/// The field that was being decoded when an error came up.
#[derive(Clone, Copy, Debug, PartialEq, Eq, Structural)]
pub enum Context {
    Magic,
    Class,
    Endianness,
    Version,
    OsAbi,
    Padding,
    Type,
    Machine,
    VersionBis,
    EntryPoint,
    ProgramHeaderOffset,
    SectionHeaderOffset,
    Flags,
    HeaderSize,
    ProgramHeaderEntrySize,
    ProgramHeaderCount,
    SectionHeaderEntrySize,
    SectionHeaderCount,
    SectionNameIndex,
    ProgramHeader,
    SegmentData,
    DynamicTable,
    Address,
}

/// A decoding error: its kind, the field being decoded, and the byte offset
/// from the start of the input at which decoding failed.
#[derive(Clone, Copy, Debug, PartialEq, Eq, Structural)]
pub struct ParseError {
    pub kind: ErrorKind,
    pub context: Context,
    pub offset: usize,
}

/// The error for a field of `context` at `offset` that the input cannot hold.
pub open spec fn truncated(context: Context, offset: int) -> ParseError {
    ParseError { kind: ErrorKind::Truncated, context, offset: offset as usize }
}

/// The bytes that a diagnostic shows for an error at `offset`: up to 20 of
/// them, starting there.
pub fn error_window(b: &[u8], offset: usize) -> (r: Vec<u8>)
    ensures
        offset >= b@.len() ==> r@.len() == 0,
        offset < b@.len() ==> r@ == b@.subrange(
            offset as int,
            if offset + 20 <= b@.len() {
                offset + 20
            } else {
                b@.len() as int
            },
        ),
{
    let n = b.len();
    let mut out: Vec<u8> = Vec::new();
    if offset >= n {
        return out;
    }
    let end = if n - offset >= 20 {
        offset + 20
    } else {
        n
    };
    let mut i: usize = offset;
    while i < end
        invariant
            offset <= i <= end,
            end <= n,
            n == b@.len(),
            out@ == b@.subrange(offset as int, i as int),
        decreases end - i,
    {
        out.push(b[i]);
        i = i + 1;
        assert(out@ =~= b@.subrange(offset as int, i as int));
    }
    out
}

/// Checks that `width` bytes starting at `pos` lie inside `b`.
pub fn need(b: &[u8], pos: usize, width: usize, context: Context) -> (r: Result<(), ParseError>)
    ensures
        r is Ok <==> pos + width <= b@.len(),
        r matches Err(e) ==> e == truncated(context, pos as int),
{
    if pos <= b.len() && width <= b.len() - pos {
        Ok(())
    } else {
        Err(ParseError { kind: ErrorKind::Truncated, context, offset: pos })
    }
}

} // verus!

verus! {

/// What went wrong while preparing or performing a load.
#[derive(Clone, Copy, Debug, PartialEq, Eq, Structural)]
pub enum LoadError {
    /// The file targets another machine than x86-64.
    UnsupportedMachine,
    /// The dynamic table names a relocation table that cannot be read.
    RelaTableUnreadable,
    /// A relocation of this raw type, which the loader cannot apply.
    UnsupportedRelocation(u32),
    /// A relocation slot that does not lie wholly inside its segment's memory.
    RelocationOutOfRange(u64),
    /// A segment or the entry point, once moved by the base, passes the end of
    /// the address space.
    AddressOverflow,
    /// A segment holds more bytes in the file than in memory.
    BadSegmentSize,
    /// The host refused to map `len` bytes at `addr`.
    MapFailed { addr: u64, len: u64 },
    /// The host refused to change a mapping's protection.
    ProtectFailed,
}

} // verus!
