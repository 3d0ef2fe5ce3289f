use mmu_core::descriptor::{page_descriptor, table_descriptor, MemoryPermission, ATTR_NORMAL};
use mmu_core::fault::get_instruction_fault_name;
use mmu_core::regs::SysOp;
use mmu_core::table::{map_lvl2_block, map_normal_page, map_page, unmap_page, PageTables};

const BASE: u64 = 0x4010_0000;

fn linked() -> PageTables {
    let mut t = PageTables::new(BASE);
    t.link_lvl1_entries();
    t
}

fn maintenance() -> Vec<SysOp> {
    vec![
        SysOp::DataBarrier,
        SysOp::InstructionBarrier,
        SysOp::InvalidateTlb,
        SysOp::DataBarrier,
        SysOp::InstructionBarrier,
    ]
}

#[test]
fn new_store_is_empty() {
    let t = PageTables::new(BASE);
    assert_eq!(t.lvl1.len(), 8);
    assert_eq!(t.lvl2.len(), 4096);
    assert_eq!(t.lvl3.len(), 1 << 21);
    assert!(t.lvl1.iter().chain(t.lvl2.iter()).chain(t.lvl3.iter()).all(|e| *e == 0));
    assert_eq!(t.lvl1_table_address(), BASE);
    assert_eq!(t.translate(0x8000_0000, false), Err(0b000101));
}

#[test]
fn link_names_each_lvl2_table() {
    let t = linked();
    for i in 0..8u64 {
        assert_eq!(t.lvl1[i as usize], table_descriptor(BASE + (1 + i) * 4096));
    }
    assert_eq!(t.translate(0x8000_0000, false), Err(0b000110));
}

#[test]
fn map_one_page() {
    let mut t = linked();
    let ops = map_page(&mut t, 0x8000_0000, 0x9000_0000, 0x1000, MemoryPermission::RW, ATTR_NORMAL);
    assert_eq!(ops, maintenance());
    assert_eq!(t.lvl3[0x80000], page_descriptor(0x90000, MemoryPermission::RW, ATTR_NORMAL));
    assert_eq!(t.lvl2[0x400], table_descriptor(BASE + (9 + 0x400) * 4096));
    assert_eq!(t.lvl3[0x80001], 0);
    assert_eq!(t.translate(0x8000_0abc, true), Ok(0x9000_0abc));
    assert_eq!(t.translate(0x8000_1000, false), Err(0b000111));
}

#[test]
fn map_normalizes_unaligned_range() {
    let mut t = linked();
    map_normal_page(&mut t, 0x8000_0123, 0x9000_0456, 0x1001, MemoryPermission::RW);
    assert_eq!(t.lvl3[0x80000], page_descriptor(0x90000, MemoryPermission::RW, ATTR_NORMAL));
    assert_eq!(t.lvl3[0x80001], page_descriptor(0x90001, MemoryPermission::RW, ATTR_NORMAL));
    assert_eq!(t.lvl3[0x80002], 0);
    assert_eq!(t.lvl3[0x7ffff], 0);
}

#[test]
fn zero_size_changes_nothing() {
    let mut t = linked();
    map_page(&mut t, 0x8000_0000, 0x8000_0000, 0x3000, MemoryPermission::RX, ATTR_NORMAL);
    let (l1, l2, l3) = (t.lvl1.clone(), t.lvl2.clone(), t.lvl3.clone());
    let ops = map_page(&mut t, 0x8100_0000, 0x8100_0000, 0, MemoryPermission::RW, ATTR_NORMAL);
    assert!(ops.is_empty());
    let ops = unmap_page(&mut t, 0x8000_0000, 0);
    assert!(ops.is_empty());
    assert!(t.lvl1 == l1 && t.lvl2 == l2 && t.lvl3 == l3);
}

#[test]
fn mapping_twice_equals_mapping_once() {
    let mut t = linked();
    map_page(&mut t, 0x8020_0000, 0x9000_0000, 0x5000, MemoryPermission::RX, ATTR_NORMAL);
    let (l1, l2, l3) = (t.lvl1.clone(), t.lvl2.clone(), t.lvl3.clone());
    map_page(&mut t, 0x8020_0000, 0x9000_0000, 0x5000, MemoryPermission::RX, ATTR_NORMAL);
    assert!(t.lvl1 == l1 && t.lvl2 == l2 && t.lvl3 == l3);
}

#[test]
fn read_write_mapping_reads_back() {
    let mut t = linked();
    let (vaddr, paddr, size) = (0x1_2340_0000u64, 0x8800_0000u64, 0x3000u64);
    map_page(&mut t, vaddr, paddr, size, MemoryPermission::RW, ATTR_NORMAL);
    // A tiny memory: a pattern written through the write translation is read
    // back through the read translation.
    let mut memory = std::collections::HashMap::new();
    for off in (0..size).step_by(0x7ff) {
        let w = t.translate(vaddr + off, true).unwrap();
        memory.insert(w, 0xa5u8 ^ off as u8);
        let r = t.translate(vaddr + off, false).unwrap();
        assert_eq!(r, paddr + off);
        assert_eq!(memory[&r], 0xa5u8 ^ off as u8);
    }
}

#[test]
fn write_to_read_only_page_is_permission_fault() {
    let mut t = linked();
    map_page(&mut t, 0x8000_0000, 0x8000_0000, 0x1000, MemoryPermission::R, ATTR_NORMAL);
    assert_eq!(t.translate(0x8000_0010, false), Ok(0x8000_0010));
    let fsc = t.translate(0x8000_0010, true).unwrap_err();
    assert_eq!(fsc, 0b001111);
    assert_eq!(get_instruction_fault_name((0x25 << 26) | fsc), "Permission fault, 3rd level");
}

#[test]
fn unmapped_page_is_translation_fault_at_level_three() {
    let mut t = linked();
    map_page(&mut t, 0x8000_0000, 0x8000_0000, 0x2000, MemoryPermission::RW, ATTR_NORMAL);
    let ops = unmap_page(&mut t, 0x8000_0000, 0x1000);
    assert_eq!(ops, maintenance());
    assert_eq!(t.lvl3[0x80000], 0);
    for write in [false, true] {
        let fsc = t.translate(0x8000_0000, write).unwrap_err();
        assert_eq!(get_instruction_fault_name(fsc), "Translation fault, 3rd level");
    }
    assert_eq!(t.translate(0x8000_1000, true), Ok(0x8000_1000));
}

#[test]
fn unmap_allocates_the_lvl3_table() {
    let mut t = linked();
    unmap_page(&mut t, 0x6000_0000, 0x1000);
    assert_eq!(t.lvl2[0x300], table_descriptor(BASE + (9 + 0x300) * 4096));
    assert_eq!(t.translate(0x6000_0000, false), Err(0b000111));
}

#[test]
fn lvl2_table_entries_name_their_lvl3_tables() {
    let mut t = linked();
    map_page(&mut t, 0x0, 0x0, 0x40_0000, MemoryPermission::RWX, ATTR_NORMAL);
    map_page(&mut t, 0x1_f000_0000, 0x0, 0x1000, MemoryPermission::R, ATTR_NORMAL);
    let mut seen = 0;
    for (j, e) in t.lvl2.iter().enumerate() {
        if *e != 0 && e & 2 != 0 {
            assert_eq!(e & 0x0000_ffff_ffff_f000, BASE + (9 + j as u64) * 4096);
            seen += 1;
        }
    }
    assert_eq!(seen, 3);
}

#[test]
fn block_mapping_writes_lvl2_only() {
    let mut t = linked();
    map_lvl2_block(&mut t, 0x5000_0000, 0x5000_0000, 0x20_0000, 0);
    assert_eq!(t.lvl2[0x280], 0x5000_0701);
    assert_eq!(t.lvl2[0x281], 0);
    assert!(t.lvl3.iter().all(|e| *e == 0));
    assert_eq!(t.translate(0x5001_2345, true), Ok(0x5001_2345));
    map_lvl2_block(&mut t, 0x5440_0000, 0x5440_0000, 0x20_0001, 0);
    assert_eq!(t.lvl2[0x2a2], 0x5440_0701);
    assert_eq!(t.lvl2[0x2a3], 0x5460_0701);
}

#[test]
fn address_outside_input_range_faults() {
    let t = linked();
    assert_eq!(t.translate(0x2_0000_0000, false), Err(0b000100));
}
