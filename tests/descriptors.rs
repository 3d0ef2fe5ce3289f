use mmu_core::descriptor::{
    block_descriptor, output_address, page_descriptor, permission_bits, table_descriptor,
    MemoryPermission,
};

#[test]
fn table_descriptor_layout() {
    assert_eq!(table_descriptor(0x1234_5000), 0x1234_5003);
    assert_eq!(output_address(table_descriptor(0x1234_5000)), 0x1234_5000);
    // Bits below the granule and above the 48-bit field are dropped.
    assert_eq!(table_descriptor(0xffff_0000_1234_5fff), 0x1234_5003);
}

#[test]
fn page_descriptor_permissions() {
    let frame = 0x8000_0000u64 >> 12;
    assert_eq!(page_descriptor(frame, MemoryPermission::RW, 1), 0x0040_0000_8000_0707);
    assert_eq!(page_descriptor(frame, MemoryPermission::W, 1), 0x0040_0000_8000_0707);
    assert_eq!(page_descriptor(frame, MemoryPermission::R, 1), 0x0040_0000_8000_0787);
    assert_eq!(page_descriptor(frame, MemoryPermission::RX, 1), 0x0000_0000_8000_0787);
    assert_eq!(page_descriptor(frame, MemoryPermission::X, 1), 0x0000_0000_8000_0787);
    assert_eq!(page_descriptor(frame, MemoryPermission::RWX, 1), 0x0000_0000_8000_0707);
    assert_eq!(page_descriptor(frame, MemoryPermission::Invalid, 1), 0);
    assert_eq!(page_descriptor(frame, MemoryPermission::RW, 2), 0x0040_0000_8000_070b);
}

#[test]
fn permission_bits_table() {
    assert_eq!(permission_bits(MemoryPermission::R), 0x0040_0000_0000_0080);
    assert_eq!(permission_bits(MemoryPermission::RW), 0x0040_0000_0000_0000);
    assert_eq!(permission_bits(MemoryPermission::RX), 0x80);
    assert_eq!(permission_bits(MemoryPermission::RWX), 0);
}

#[test]
fn block_descriptor_layout() {
    assert_eq!(block_descriptor(0x5000_0000 >> 21, 0), 0x5000_0701);
    assert_eq!(block_descriptor(0x5000_0000 >> 21, 1), 0x5000_0705);
}
