use mmu_core::boot::{init_executable_mapping, setup, SectionLayout};
use mmu_core::descriptor::{page_descriptor, MemoryPermission, ATTR_NORMAL};
use mmu_core::regs::{enable_translation, ExceptionLevel, SysOp};
use mmu_core::table::PageTables;

const BASE: u64 = 0x4010_0000;

fn layout() -> SectionLayout {
    SectionLayout {
        text_start: 0x8000_0000,
        text_end: 0x8000_2800,
        rodata_start: 0x8000_3000,
        rodata_end: 0x8000_3100,
        data_start: 0x8000_4000,
        data_end: 0x8000_5000,
        bss_start: 0x8000_5000,
        bss_end: 0x8000_5000,
        stack_start: 0x8001_0000,
        stack_end: 0x8001_4000,
        vectors_start: 0x8002_0000,
        vectors_end: 0x8002_0800,
    }
}

#[test]
fn executable_mapping_permissions() {
    let mut t = PageTables::new(BASE);
    let ops = init_executable_mapping(&mut t, &layout());
    // Five non-empty sections, one maintenance batch each; bss is empty.
    assert_eq!(ops.len(), 25);
    let rx = |f| page_descriptor(f, MemoryPermission::RX, ATTR_NORMAL);
    let r = |f| page_descriptor(f, MemoryPermission::R, ATTR_NORMAL);
    let rw = |f| page_descriptor(f, MemoryPermission::RW, ATTR_NORMAL);
    assert_eq!(t.lvl3[0x80000], rx(0x80000));
    assert_eq!(t.lvl3[0x80002], rx(0x80002));
    assert_eq!(t.lvl3[0x80003], r(0x80003));
    assert_eq!(t.lvl3[0x80004], rw(0x80004));
    assert_eq!(t.lvl3[0x80005], 0);
    assert_eq!(t.lvl3[0x80013], rw(0x80013));
    assert_eq!(t.lvl3[0x80014], 0);
    assert_eq!(t.lvl3[0x80020], rx(0x80020));
}

#[test]
fn setup_builds_tables_then_enables_translation() {
    let mut t = PageTables::new(BASE);
    let ops = setup(&mut t, &layout(), ExceptionLevel::El2, 0, 0x30c5_0830);
    let tail = enable_translation(ExceptionLevel::El2, 0, 0x30c5_0830, BASE);
    assert_eq!(ops[ops.len() - tail.len()..], tail[..]);
    assert_eq!(ops.len(), 25 + tail.len());
    assert!(ops.contains(&SysOp::WriteTtbr0(BASE)));
    // Device windows are identity-mapped blocks.
    assert_eq!(t.lvl2[0x280], 0x5000_0701);
    assert_eq!(t.lvl2[0x300], 0x6000_0701);
    assert_eq!(t.lvl2[0x380], 0x7000_0701);
    assert_eq!(t.translate(0x7000_6000, true), Ok(0x7000_6000));
    assert_eq!(t.translate(0x8000_1000, false), Ok(0x8000_1000));
    assert_eq!(t.translate(0x8000_3000, true), Err(0b001111));
}
