use delf::addr::Addr;
use delf::error::{error_window, Context, ErrorKind, LoadError, ParseError};
use delf::file::File;
use delf::header::FileHeader;
use delf::loader::{align_lo, entry_address, plan_load, protection_for, Protection, BASE};
use delf::segment::{SegmentContents, SegmentFlags};
use delf::types::{DynamicTag, Machine, RelType, SegmentType, Type};

const CODE: [u8; 9] = [0xb8, 0x3c, 0x00, 0x00, 0x00, 0x31, 0xff, 0x0f, 0x05];

fn header(ty: u16, entry: u64, phoff: u64, phnum: u16) -> Vec<u8> {
    let mut v = vec![0x7f, b'E', b'L', b'F', 2, 1, 1, 0];
    v.extend_from_slice(&[0; 8]);
    v.extend_from_slice(&ty.to_le_bytes());
    v.extend_from_slice(&0x3eu16.to_le_bytes());
    v.extend_from_slice(&1u32.to_le_bytes());
    v.extend_from_slice(&entry.to_le_bytes());
    v.extend_from_slice(&phoff.to_le_bytes());
    v.extend_from_slice(&0u64.to_le_bytes());
    v.extend_from_slice(&0u32.to_le_bytes());
    v.extend_from_slice(&64u16.to_le_bytes());
    v.extend_from_slice(&56u16.to_le_bytes());
    v.extend_from_slice(&phnum.to_le_bytes());
    v.extend_from_slice(&64u16.to_le_bytes());
    v.extend_from_slice(&0u16.to_le_bytes());
    v.extend_from_slice(&0u16.to_le_bytes());
    assert_eq!(v.len(), 64);
    v
}

fn ph(ptype: u32, flags: u32, off: u64, vaddr: u64, filesz: u64, memsz: u64) -> Vec<u8> {
    let mut v = Vec::new();
    v.extend_from_slice(&ptype.to_le_bytes());
    v.extend_from_slice(&flags.to_le_bytes());
    for x in [off, vaddr, vaddr, filesz, memsz, 0x1000u64] {
        v.extend_from_slice(&x.to_le_bytes());
    }
    v
}

/// One loadable R+X segment holding an `exit(0)` at 0x1000.
fn minimal_exec_at(vaddr: u64) -> Vec<u8> {
    let mut v = header(2, vaddr, 64, 1);
    v.extend(ph(1, 5, 120, vaddr, 9, 9));
    v.extend_from_slice(&CODE);
    v
}

fn minimal_exec() -> Vec<u8> {
    minimal_exec_at(0x1000)
}

/// A position-independent file with one relocation of raw type `rtype` at
/// 0x3000 with addend 0x1234.
fn dyn_with_reloc(rtype: u64) -> Vec<u8> {
    let a_off: u64 = 64 + 3 * 56;
    let a_size: u64 = 104;
    let mut v = header(3, 0x1000, 64, 3);
    v.extend(ph(1, 5, a_off, 0x1000, a_size, a_size));
    v.extend(ph(2, 6, a_off + 40, 0x1000 + 40, 64, 64));
    v.extend(ph(1, 6, a_off + a_size, 0x3000, 8, 8));
    v.extend_from_slice(&CODE);
    v.extend_from_slice(&[0; 7]);
    for x in [0x3000u64, rtype, 0x1234] {
        v.extend_from_slice(&x.to_le_bytes());
    }
    for x in [7u64, 0x1010, 8, 24, 9, 24, 0, 0] {
        v.extend_from_slice(&x.to_le_bytes());
    }
    v.extend_from_slice(&[0; 8]);
    assert_eq!(v.len() as u64, a_off + a_size + 8);
    v
}

fn parse_err(b: &[u8]) -> ParseError {
    match File::parse(b) {
        Ok(_) => panic!("expected a parse error"),
        Err(e) => e,
    }
}

#[test]
fn try_enums() {
    assert_eq!(Machine::X86_64.to_u16(), 0x3E);
    assert_eq!(Machine::try_from(0x3E), Ok(Machine::X86_64));
    assert_eq!(Machine::try_from(0xFA), Err(0xFA));
}

#[test]
fn enum_codes_round_trip() {
    for t in [Type::NoType, Type::Rel, Type::Exec, Type::Dyn, Type::Core] {
        assert_eq!(Type::from_u16(t.to_u16()), Some(t));
    }
    assert_eq!(Type::from_u16(5), None);
    assert_eq!(Type::try_from(9), Err(9));
    assert_eq!(Machine::from_u16(Machine::X86.to_u16()), Some(Machine::X86));
    assert_eq!(SegmentType::from_u32(1), SegmentType::Load);
    assert_eq!(SegmentType::from_u32(0x1234), SegmentType::Other(0x1234));
    assert_eq!(SegmentType::Dynamic.to_u32(), 2);
    assert_eq!(DynamicTag::from_u64(7), DynamicTag::Rela);
    assert_eq!(DynamicTag::from_u64(0x6fff_fffb), DynamicTag::Other(0x6fff_fffb));
    assert_eq!(RelType::from_u32(8), RelType::Relative);
    assert_eq!(RelType::JumpSlot.to_u32(), 7);
}

#[test]
fn addr_round_trip() {
    let x: u64 = 0xdead_beef_0000_1234;
    let a: Addr = Addr::from(x);
    let back: u64 = a.into();
    assert_eq!(back, x);
    assert_eq!(u64::from(Addr(7)), 7);
    assert_eq!(Addr(5).checked_sub(Addr(7)), None);
    assert_eq!(Addr(u64::MAX).checked_add(Addr(1)), None);
    assert_eq!(Addr(u64::MAX).wrapping_add(Addr(2)), Addr(1));
}

#[test]
fn addr_parse() {
    let b = [0x34, 0x12, 0, 0, 0, 0, 0, 0, 0xff];
    assert_eq!(Addr::parse(&b), Ok((8, Addr(0x1234))));
    let e = Addr::parse(&b[..7]).unwrap_err();
    assert_eq!(e.kind, ErrorKind::Truncated);
    assert_eq!(e.offset, 0);
}

#[test]
fn valid_exec_parses() {
    let b = minimal_exec();
    let (n, f) = File::parse(&b).unwrap();
    assert_eq!(n, 64);
    assert_eq!(f.file_type, Type::Exec);
    assert_eq!(f.machine, Machine::X86_64);
    assert_eq!(f.entry_point, Addr(0x1000));
    assert_eq!(f.program_headers.len(), 1);
    assert_eq!(f.segment_at(f.entry_point), Some(0));
    let loads = f
        .program_headers
        .iter()
        .filter(|p| {
            p.segment_type == SegmentType::Load
                && p.vaddr.0 <= f.entry_point.0
                && f.entry_point.0 < p.vaddr.0 + p.memsz.0
        })
        .count();
    assert_eq!(loads, 1);
}

#[test]
fn segment_data_is_file_slice() {
    let b = dyn_with_reloc(8);
    let (_, f) = File::parse(&b).unwrap();
    for p in &f.program_headers {
        assert_eq!(p.data.len() as u64, p.filesz.0);
        let off = p.offset.0 as usize;
        assert_eq!(&p.data[..], &b[off..off + p.filesz.0 as usize]);
    }
}

#[test]
fn header_fields_decoded() {
    let b = minimal_exec();
    let (n, h) = FileHeader::parse(&b).unwrap();
    assert_eq!(n, 64);
    assert_eq!(h.ph_off, Addr(64));
    assert_eq!(h.ph_entsize, 56);
    assert_eq!(h.ph_num, 1);
    assert_eq!(h.eh_size, 64);
}

#[test]
fn dynamic_table_ends_with_one_null() {
    let b = dyn_with_reloc(8);
    let (_, f) = File::parse(&b).unwrap();
    assert_eq!(f.file_type, Type::Dyn);
    let k = f.dynamic_segment().unwrap();
    assert_eq!(k, 1);
    match &f.program_headers[k].contents {
        SegmentContents::Dynamic(es) => {
            assert_eq!(es.len(), 4);
            assert_eq!(es[3].tag, DynamicTag::Null);
            assert_eq!(es.iter().filter(|e| e.tag == DynamicTag::Null).count(), 1);
            assert_eq!(es[0].tag, DynamicTag::Rela);
            assert_eq!(es[0].value, Addr(0x1010));
        }
        SegmentContents::Unknown => panic!("expected a dynamic table"),
    }
    assert!(matches!(f.program_headers[0].contents, SegmentContents::Unknown));
}

#[test]
fn dynamic_table_without_null_is_truncated() {
    let mut b = dyn_with_reloc(8);
    let dyn_off = 64 + 3 * 56 + 40;
    let null_at = dyn_off + 48;
    b[null_at] = 0x99;
    let e = parse_err(&b);
    assert_eq!(e.kind, ErrorKind::Truncated);
    assert_eq!(e.context, Context::DynamicTable);
    assert_eq!(e.offset, dyn_off + 64);
}

#[test]
fn magic_corruption_reports_position() {
    let good = minimal_exec();
    for k in 0..4 {
        let mut b = good.clone();
        b[k] ^= 0xff;
        let e = parse_err(&b);
        assert_eq!(e.kind, ErrorKind::BadMagic);
        assert_eq!(e.offset, k);
    }
}

#[test]
fn class_one_is_unsupported() {
    let mut b = minimal_exec();
    b[4] = 1;
    let e = parse_err(&b);
    assert_eq!(e.kind, ErrorKind::UnsupportedClass);
    assert_eq!(e.offset, 4);
}

#[test]
fn version_bis_not_one_fails_there() {
    for v in [0u32, 2, 0xffff_ffff] {
        let mut b = minimal_exec();
        b[20..24].copy_from_slice(&v.to_le_bytes());
        let e = parse_err(&b);
        assert_eq!(e.kind, ErrorKind::BadVersionBis);
        assert_eq!(e.context, Context::VersionBis);
        assert_eq!(e.offset, 20);
    }
}

#[test]
fn truncated_header_reports_field_start() {
    let b = minimal_exec();
    let cases: [(usize, usize); 12] = [
        (0, 0),
        (3, 0),
        (4, 4),
        (5, 5),
        (6, 6),
        (7, 7),
        (10, 8),
        (17, 16),
        (19, 18),
        (22, 20),
        (30, 24),
        (63, 62),
    ];
    for (n, off) in cases {
        let e = parse_err(&b[..n]);
        assert_eq!(e.kind, ErrorKind::Truncated, "cut at {}", n);
        assert_eq!(e.offset, off, "cut at {}", n);
    }
}

#[test]
fn other_identification_errors() {
    let mut b = minimal_exec();
    b[5] = 2;
    assert_eq!(parse_err(&b).kind, ErrorKind::UnsupportedEndianness);
    let mut b = minimal_exec();
    b[6] = 0;
    assert_eq!(parse_err(&b).kind, ErrorKind::UnsupportedVersion);
    let mut b = minimal_exec();
    b[7] = 9;
    assert_eq!(parse_err(&b).kind, ErrorKind::UnsupportedOsAbi);
    let mut b = minimal_exec();
    b[7] = 3;
    assert!(File::parse(&b).is_ok());
    let mut b = minimal_exec();
    b[16] = 9;
    assert_eq!(parse_err(&b).kind, ErrorKind::UnknownType(9));
    let mut b = minimal_exec();
    b[18] = 0x28;
    let e = parse_err(&b);
    assert_eq!(e.kind, ErrorKind::UnknownMachine(0x28));
    assert_eq!(e.offset, 18);
}

#[test]
fn entry_point_outside_segments_fails() {
    let b = minimal_exec_at(0x1000);
    let mut c = b.clone();
    c[24..32].copy_from_slice(&0x9000u64.to_le_bytes());
    let e = parse_err(&c);
    assert_eq!(e.kind, ErrorKind::EntryPointNotInAnySegment);
    assert_eq!(e.offset, 24);
}

#[test]
fn program_header_table_out_of_range() {
    let mut b = minimal_exec();
    b[32..40].copy_from_slice(&100u64.to_le_bytes());
    let e = parse_err(&b);
    assert_eq!(e.kind, ErrorKind::Truncated);
    assert_eq!(e.context, Context::ProgramHeader);
    assert_eq!(e.offset, 100);
    let mut b = minimal_exec();
    b[64 + 32..64 + 40].copy_from_slice(&500u64.to_le_bytes());
    let e = parse_err(&b);
    assert_eq!(e.context, Context::SegmentData);
    assert_eq!(e.offset, 120);
}

#[test]
fn segment_bytes_copied_at_base() {
    let b = minimal_exec();
    let (_, f) = File::parse(&b).unwrap();
    let relocs = f.read_rela_entries().unwrap();
    assert!(relocs.is_empty());
    let imgs = plan_load(&f, &relocs, BASE).unwrap();
    let img = imgs[0].as_ref().unwrap();
    assert_eq!(img.aligned_start, 0x401000);
    assert_eq!(img.padding, 0);
    assert_eq!(&img.bytes[..], &CODE[..]);
    assert_eq!(entry_address(&f, BASE), Ok(0x401000));
}

#[test]
fn minimal_exec_plan() {
    let b = minimal_exec();
    let (_, f) = File::parse(&b).unwrap();
    let imgs = plan_load(&f, &Vec::new(), 0x400000).unwrap();
    assert_eq!(imgs.len(), 1);
    let img = imgs[0].as_ref().unwrap();
    assert_eq!(
        img.protection,
        Protection { read: true, write: false, execute: true }
    );
    let entry = entry_address(&f, 0x400000).unwrap();
    assert_eq!(entry - img.aligned_start - img.padding, 0);
    assert_eq!(img.bytes[0], 0xb8);
}

#[test]
fn bad_magic_scenario() {
    let mut b = minimal_exec();
    b[..4].copy_from_slice(b"BAD!");
    let e = parse_err(&b);
    assert_eq!(e.kind, ErrorKind::BadMagic);
    assert_eq!(e.context, Context::Magic);
    assert_eq!(e.offset, 0);
}

#[test]
fn elf32_rejected() {
    let mut b = vec![0x7f, b'E', b'L', b'F', 1, 1, 1, 0];
    b.extend_from_slice(&[0; 44]);
    let e = parse_err(&b);
    assert_eq!(e.kind, ErrorKind::UnsupportedClass);
}

#[test]
fn unaligned_vaddr_is_padded() {
    let b = minimal_exec_at(0x401234);
    let (_, f) = File::parse(&b).unwrap();
    let imgs = plan_load(&f, &Vec::new(), BASE).unwrap();
    let img = imgs[0].as_ref().unwrap();
    assert_eq!(img.aligned_start, 0x801000);
    assert_eq!(img.padding, 0x234);
    assert_eq!(img.bytes.len(), 9 + 0x234);
    assert_eq!(img.bytes[0x234], f.program_headers[0].data[0]);
    assert_eq!(img.bytes[0], 0);
    assert_eq!(align_lo(0x801234), 0x801000);
    assert_eq!(align_lo(0x1000), 0x1000);
    assert_eq!(align_lo(0xfff), 0);
}

#[test]
fn relative_relocation_applied() {
    let b = dyn_with_reloc(8);
    let (_, f) = File::parse(&b).unwrap();
    let relocs = f.read_rela_entries().unwrap();
    assert_eq!(relocs.len(), 1);
    assert_eq!(relocs[0].offset, Addr(0x3000));
    assert_eq!(relocs[0].rel_type, RelType::Relative);
    assert_eq!(relocs[0].sym, 0);
    assert_eq!(relocs[0].addend, Addr(0x1234));
    let imgs = plan_load(&f, &relocs, BASE).unwrap();
    assert!(imgs[1].is_none());
    let img = imgs[2].as_ref().unwrap();
    assert_eq!(img.aligned_start, 0x403000);
    let mut slot = [0u8; 8];
    slot.copy_from_slice(&img.bytes[img.padding..img.padding + 8]);
    assert_eq!(u64::from_le_bytes(slot), 0x401234);
    let code = imgs[0].as_ref().unwrap();
    assert_eq!(&code.bytes[..9], &CODE[..]);
}

#[test]
fn symbol_index_comes_from_high_bits() {
    let b = dyn_with_reloc((5u64 << 32) | 8);
    let (_, f) = File::parse(&b).unwrap();
    let relocs = f.read_rela_entries().unwrap();
    assert_eq!(relocs[0].sym, 5);
    assert_eq!(relocs[0].rel_type, RelType::Relative);
}

#[test]
fn jump_slot_relocation_unsupported() {
    let b = dyn_with_reloc(7);
    let (_, f) = File::parse(&b).unwrap();
    let relocs = f.read_rela_entries().unwrap();
    assert_eq!(relocs[0].rel_type, RelType::JumpSlot);
    assert_eq!(
        plan_load(&f, &relocs, BASE).unwrap_err(),
        LoadError::UnsupportedRelocation(7)
    );
}

#[test]
fn protection_follows_flags() {
    for bits in 0u32..8 {
        let flags = SegmentFlags::from_u32(bits);
        let p = protection_for(flags);
        assert_eq!(p.read, bits & 4 != 0);
        assert_eq!(p.write, bits & 2 != 0);
        assert_eq!(p.execute, bits & 1 != 0);
    }
    assert_eq!(
        protection_for(SegmentFlags::from_u32(0)),
        Protection { read: false, write: false, execute: false }
    );
}

#[test]
fn load_errors() {
    let b = minimal_exec();
    let (_, mut f) = File::parse(&b).unwrap();
    assert_eq!(plan_load(&f, &Vec::new(), u64::MAX).unwrap_err(), LoadError::AddressOverflow);
    assert_eq!(entry_address(&f, u64::MAX), Err(LoadError::AddressOverflow));
    f.machine = Machine::X86;
    assert_eq!(plan_load(&f, &Vec::new(), BASE).unwrap_err(), LoadError::UnsupportedMachine);

    let (_, mut f) = File::parse(&b).unwrap();
    f.program_headers[0].memsz = Addr(4);
    assert_eq!(plan_load(&f, &Vec::new(), BASE).unwrap_err(), LoadError::BadSegmentSize);

    let b = dyn_with_reloc(8);
    let (_, f) = File::parse(&b).unwrap();
    let mut relocs = f.read_rela_entries().unwrap();
    relocs[0].offset = Addr(0x3004);
    assert_eq!(
        plan_load(&f, &relocs, BASE).unwrap_err(),
        LoadError::RelocationOutOfRange(0x3004)
    );
}

#[test]
fn unreadable_rela_table() {
    let mut b = dyn_with_reloc(8);
    let dyn_off = 64 + 3 * 56 + 40;
    b[dyn_off + 8..dyn_off + 16].copy_from_slice(&0x9000u64.to_le_bytes());
    let (_, f) = File::parse(&b).unwrap();
    assert_eq!(f.read_rela_entries(), Err(LoadError::RelaTableUnreadable));
    let mut b = dyn_with_reloc(8);
    b[dyn_off + 24..dyn_off + 32].copy_from_slice(&4096u64.to_le_bytes());
    let (_, f) = File::parse(&b).unwrap();
    assert_eq!(f.read_rela_entries(), Err(LoadError::RelaTableUnreadable));
}

#[test]
fn diagnostic_window() {
    let b: Vec<u8> = (0u8..30).collect();
    assert_eq!(error_window(&b, 5), (5u8..25).collect::<Vec<u8>>());
    assert_eq!(error_window(&b, 25), vec![25, 26, 27, 28, 29]);
    assert!(error_window(&b, 30).is_empty());
}
