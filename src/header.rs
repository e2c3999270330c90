use vstd::prelude::*;

use crate::addr::Addr;
use crate::bytes::{le16, le32, le64, read_u16, read_u32, read_u64};
use crate::error::{need, truncated, Context, ErrorKind, ParseError};
use crate::types::{Machine, Type};

verus! {

/// Size in bytes of an ELF64 file header.
pub const HEADER_SIZE: usize = 64;

/// The decoded ELF64 file header.
#[derive(Clone, Copy, Debug, PartialEq, Eq, Structural)]
pub struct FileHeader {
    pub file_type: Type,
    pub machine: Machine,
    pub entry_point: Addr,
    pub ph_off: Addr,
    pub sh_off: Addr,
    pub flags: u32,
    pub eh_size: u16,
    pub ph_entsize: u16,
    pub ph_num: u16,
    pub sh_entsize: u16,
    pub sh_num: u16,
    pub sh_strndx: u16,
}

/// An error of `kind` while decoding the field `context` at `offset`.
pub open spec fn error_at(kind: ErrorKind, context: Context, offset: int) -> ParseError {
    ParseError { kind, context, offset: offset as usize }
}

/// The first error in the identification bytes (offsets 0 to 15), if any.
pub open spec fn ident_error(b: Seq<u8>) -> Option<ParseError> {
    if b.len() < 4 {
        Some(truncated(Context::Magic, 0))
    } else if b[0] != 0x7f {
        Some(error_at(ErrorKind::BadMagic, Context::Magic, 0))
    } else if b[1] != 0x45 {
        Some(error_at(ErrorKind::BadMagic, Context::Magic, 1))
    } else if b[2] != 0x4c {
        Some(error_at(ErrorKind::BadMagic, Context::Magic, 2))
    } else if b[3] != 0x46 {
        Some(error_at(ErrorKind::BadMagic, Context::Magic, 3))
    } else if b.len() < 5 {
        Some(truncated(Context::Class, 4))
    } else if b[4] != 2 {
        Some(error_at(ErrorKind::UnsupportedClass, Context::Class, 4))
    } else if b.len() < 6 {
        Some(truncated(Context::Endianness, 5))
    } else if b[5] != 1 {
        Some(error_at(ErrorKind::UnsupportedEndianness, Context::Endianness, 5))
    } else if b.len() < 7 {
        Some(truncated(Context::Version, 6))
    } else if b[6] != 1 {
        Some(error_at(ErrorKind::UnsupportedVersion, Context::Version, 6))
    } else if b.len() < 8 {
        Some(truncated(Context::OsAbi, 7))
    } else if b[7] != 0 && b[7] != 3 {
        Some(error_at(ErrorKind::UnsupportedOsAbi, Context::OsAbi, 7))
    } else if b.len() < 16 {
        Some(truncated(Context::Padding, 8))
    } else {
        None
    }
}

/// The error for an input of `n` bytes, with `24 <= n < 64`, that ends inside
/// the fields that follow the entry point.
pub open spec fn tail_truncated(n: int) -> ParseError {
    if n < 32 {
        truncated(Context::EntryPoint, 24)
    } else if n < 40 {
        truncated(Context::ProgramHeaderOffset, 32)
    } else if n < 48 {
        truncated(Context::SectionHeaderOffset, 40)
    } else if n < 52 {
        truncated(Context::Flags, 48)
    } else if n < 54 {
        truncated(Context::HeaderSize, 52)
    } else if n < 56 {
        truncated(Context::ProgramHeaderEntrySize, 54)
    } else if n < 58 {
        truncated(Context::ProgramHeaderCount, 56)
    } else if n < 60 {
        truncated(Context::SectionHeaderEntrySize, 58)
    } else if n < 62 {
        truncated(Context::SectionHeaderCount, 60)
    } else {
        truncated(Context::SectionNameIndex, 62)
    }
}

/// The first error in the file header, in field order, if any.
pub open spec fn header_error(b: Seq<u8>) -> Option<ParseError> {
    if ident_error(b) is Some {
        ident_error(b)
    } else if b.len() < 18 {
        Some(truncated(Context::Type, 16))
    } else if !Type::is_code(le16(b, 16) as u16) {
        Some(error_at(ErrorKind::UnknownType(le16(b, 16) as u16), Context::Type, 16))
    } else if b.len() < 20 {
        Some(truncated(Context::Machine, 18))
    } else if !Machine::is_code(le16(b, 18) as u16) {
        Some(error_at(ErrorKind::UnknownMachine(le16(b, 18) as u16), Context::Machine, 18))
    } else if b.len() < 24 {
        Some(truncated(Context::VersionBis, 20))
    } else if le32(b, 20) != 1 {
        Some(error_at(ErrorKind::BadVersionBis, Context::VersionBis, 20))
    } else if b.len() < 64 {
        Some(tail_truncated(b.len() as int))
    } else {
        None
    }
}

/// `h` holds the header fields stored in `b`.
pub open spec fn header_fields(b: Seq<u8>, h: FileHeader) -> bool {
    &&& h.file_type.raw() == le16(b, 16)
    &&& h.machine.raw() == le16(b, 18)
    &&& h.entry_point.0 == le64(b, 24)
    &&& h.ph_off.0 == le64(b, 32)
    &&& h.sh_off.0 == le64(b, 40)
    &&& h.flags == le32(b, 48)
    &&& h.eh_size == le16(b, 52)
    &&& h.ph_entsize == le16(b, 54)
    &&& h.ph_num == le16(b, 56)
    &&& h.sh_entsize == le16(b, 58)
    &&& h.sh_num == le16(b, 60)
    &&& h.sh_strndx == le16(b, 62)
}

fn expect_byte(b: &[u8], pos: usize, want: u8, kind: ErrorKind, context: Context) -> (r: Result<
    (),
    ParseError,
>)
    ensures
        r is Ok <==> pos < b@.len() && b@[pos as int] == want,
        r matches Err(e) ==> e == (if pos < b@.len() {
            error_at(kind, context, pos as int)
        } else {
            truncated(context, pos as int)
        }),
{
    need(b, pos, 1, context)?;
    if b[pos] == want {
        Ok(())
    } else {
        Err(ParseError { kind, context, offset: pos })
    }
}

fn parse_ident(b: &[u8]) -> (r: Result<(), ParseError>)
    ensures
        r is Ok <==> ident_error(b@) is None,
        r matches Err(e) ==> ident_error(b@) == Some(e),
{
    need(b, 0, 4, Context::Magic)?;
    expect_byte(b, 0, 0x7f, ErrorKind::BadMagic, Context::Magic)?;
    expect_byte(b, 1, 0x45, ErrorKind::BadMagic, Context::Magic)?;
    expect_byte(b, 2, 0x4c, ErrorKind::BadMagic, Context::Magic)?;
    expect_byte(b, 3, 0x46, ErrorKind::BadMagic, Context::Magic)?;
    expect_byte(b, 4, 2, ErrorKind::UnsupportedClass, Context::Class)?;
    expect_byte(b, 5, 1, ErrorKind::UnsupportedEndianness, Context::Endianness)?;
    expect_byte(b, 6, 1, ErrorKind::UnsupportedVersion, Context::Version)?;
    need(b, 7, 1, Context::OsAbi)?;
    if b[7] != 0 && b[7] != 3 {
        return Err(ParseError { kind: ErrorKind::UnsupportedOsAbi, context: Context::OsAbi, offset: 7 });
    }
    need(b, 8, 8, Context::Padding)?;
    Ok(())
}

impl FileHeader {
    /// Decodes the 64-byte file header at the start of `b`, checking each field
    /// in order and stopping at the first that is wrong or missing.  On success
    /// returns the number of bytes consumed with the header.
    pub fn parse(b: &[u8]) -> (r: Result<(usize, FileHeader), ParseError>)
        ensures
            r is Ok <==> header_error(b@) is None,
            r matches Err(e) ==> header_error(b@) == Some(e),
            r matches Ok((n, h)) ==> n == HEADER_SIZE && header_fields(b@, h),
    {
        parse_ident(b)?;
        need(b, 16, 2, Context::Type)?;
        let t = read_u16(b, 16);
        let file_type = match Type::from_u16(t) {
            Some(x) => x,
            None => {
                return Err(
                    ParseError { kind: ErrorKind::UnknownType(t), context: Context::Type, offset: 16 },
                );
            },
        };
        need(b, 18, 2, Context::Machine)?;
        let m = read_u16(b, 18);
        let machine = match Machine::from_u16(m) {
            Some(x) => x,
            None => {
                return Err(
                    ParseError {
                        kind: ErrorKind::UnknownMachine(m),
                        context: Context::Machine,
                        offset: 18,
                    },
                );
            },
        };
        need(b, 20, 4, Context::VersionBis)?;
        if read_u32(b, 20) != 1 {
            return Err(
                ParseError { kind: ErrorKind::BadVersionBis, context: Context::VersionBis, offset: 20 },
            );
        }
        need(b, 24, 8, Context::EntryPoint)?;
        need(b, 32, 8, Context::ProgramHeaderOffset)?;
        need(b, 40, 8, Context::SectionHeaderOffset)?;
        need(b, 48, 4, Context::Flags)?;
        need(b, 52, 2, Context::HeaderSize)?;
        need(b, 54, 2, Context::ProgramHeaderEntrySize)?;
        need(b, 56, 2, Context::ProgramHeaderCount)?;
        need(b, 58, 2, Context::SectionHeaderEntrySize)?;
        need(b, 60, 2, Context::SectionHeaderCount)?;
        need(b, 62, 2, Context::SectionNameIndex)?;
        let h = FileHeader {
            file_type,
            machine,
            entry_point: Addr(read_u64(b, 24)),
            ph_off: Addr(read_u64(b, 32)),
            sh_off: Addr(read_u64(b, 40)),
            flags: read_u32(b, 48),
            eh_size: read_u16(b, 52),
            ph_entsize: read_u16(b, 54),
            ph_num: read_u16(b, 56),
            sh_entsize: read_u16(b, 58),
            sh_num: read_u16(b, 60),
            sh_strndx: read_u16(b, 62),
        };
        Ok((HEADER_SIZE, h))
    }
}

} // verus!
