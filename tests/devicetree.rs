use rpi_kernel::devicetree::{read_be_u32, FdtHeader, FdtProperty, StructureBlockToken};

fn header_bytes() -> Vec<u8> {
    let words: [u32; 10] = [0xd00d_feed, 0x1000, 0x38, 0x800, 0x28, 17, 16, 0, 0x100, 0x7c0];
    words.iter().flat_map(|w| w.to_be_bytes()).collect()
}

#[test]
fn header_fields_are_big_endian() {
    let h = FdtHeader::from_bytes(&header_bytes()).unwrap();
    assert_eq!(h.magic(), 0xd00d_feed);
    assert!(h.is_valid());
    assert_eq!(h.totalsize(), 0x1000);
    assert_eq!(h.off_dt_struct(), 0x38);
    assert_eq!(h.off_dt_strings(), 0x800);
    assert_eq!(h.off_mem_rsvmap(), 0x28);
    assert_eq!(h.version(), 17);
    assert_eq!(h.last_comp_version(), 16);
    assert_eq!(h.boot_cpuid_phys(), 0);
    assert_eq!(h.size_dt_strings(), 0x100);
    assert_eq!(h.size_dt_struct(), 0x7c0);
}

#[test]
fn header_rejects_short_input_and_bad_magic() {
    let b = header_bytes();
    assert!(FdtHeader::from_bytes(&b[..39]).is_none());
    assert!(FdtHeader::from_bytes(&[]).is_none());
    let mut bad = b.clone();
    bad[0] = 0xfe;
    let h = FdtHeader::from_bytes(&bad).unwrap();
    assert!(!h.is_valid());
    assert_eq!(h.magic(), 0xfe0d_feed);
}

#[test]
fn property_header() {
    let p = FdtProperty::from_bytes(&[0, 0, 0, 4, 0, 0, 1, 2, 9]).unwrap();
    assert_eq!(p.len(), 4);
    assert_eq!(p.nameoff(), 0x102);
    assert!(FdtProperty::from_bytes(&[0, 0, 0, 4]).is_none());
    assert_eq!(read_be_u32(&[0x12, 0x34, 0x56, 0x78], 0), 0x1234_5678);
}

#[test]
fn structure_tokens() {
    assert_eq!(StructureBlockToken::try_from(1), Ok(StructureBlockToken::BeginNode));
    assert_eq!(StructureBlockToken::try_from(2), Ok(StructureBlockToken::EndNode));
    assert_eq!(StructureBlockToken::try_from(3), Ok(StructureBlockToken::Prop));
    assert_eq!(StructureBlockToken::try_from(4), Ok(StructureBlockToken::Nop));
    assert_eq!(StructureBlockToken::try_from(9), Ok(StructureBlockToken::End));
    assert_eq!(StructureBlockToken::try_from(5), Err(5));
    assert_eq!(StructureBlockToken::try_from(0), Err(0));
    assert_eq!(StructureBlockToken::End.value(), 9);
}
