use mmu_core::regs::{
    disable_icache, enable_icache, enable_maintenance_operations, enable_translation,
    invalidate_icache_all, invalidate_tlb_all, is_icache_enabled, set_mair_ttbr_tcr, set_sctlr,
    switch_ttbr, ExceptionLevel, SysOp,
};

#[test]
fn current_el_resolves_to_a_level() {
    assert_eq!(ExceptionLevel::from_current_el(0b0100), Some(ExceptionLevel::El1));
    assert_eq!(ExceptionLevel::from_current_el(0b1000), Some(ExceptionLevel::El2));
    assert_eq!(ExceptionLevel::from_current_el(0b1100), Some(ExceptionLevel::El3));
    assert_eq!(ExceptionLevel::from_current_el(0), None);
}

#[test]
fn switch_ttbr_sequence() {
    let sctlr = 0x30d0_1805u64;
    let ops = switch_ttbr(sctlr, 0x4010_0000);
    assert_eq!(
        ops,
        vec![
            SysOp::WriteSctlr(0x30d0_0800),
            SysOp::InstructionBarrier,
            SysOp::InvalidateTlb,
            SysOp::DataBarrier,
            SysOp::InstructionBarrier,
            SysOp::WriteTtbr0(0x4010_0000),
            SysOp::InstructionBarrier,
            SysOp::WriteSctlr(sctlr),
            SysOp::InstructionBarrier,
        ]
    );
}

#[test]
fn mmu_stays_off_while_switching() {
    let sctlr = 0xffff_ffff_ffff_ffffu64;
    let ops = switch_ttbr(sctlr, 0x1000);
    let mut current = sctlr;
    let mut writes = 0;
    for op in &ops {
        if let SysOp::WriteSctlr(v) = op {
            current = *v;
            writes += 1;
        } else if writes == 1 {
            assert_eq!(current & 1, 0);
        }
    }
    assert_eq!(writes, 2);
    assert_eq!(current, sctlr);
}

#[test]
fn icache_control() {
    assert_eq!(
        enable_icache(0x5),
        vec![
            SysOp::InvalidateIcache,
            SysOp::DataBarrier,
            SysOp::InstructionBarrier,
            SysOp::WriteSctlr(0x1005),
            SysOp::InstructionBarrier,
        ]
    );
    assert_eq!(disable_icache(0x1005), set_sctlr(0x5));
    assert!(is_icache_enabled(0x1000));
    assert!(!is_icache_enabled(0xefff));
}

#[test]
fn maintenance_sequences() {
    assert_eq!(
        invalidate_tlb_all(),
        vec![SysOp::InvalidateTlb, SysOp::DataBarrier, SysOp::InstructionBarrier]
    );
    assert_eq!(
        invalidate_icache_all(),
        vec![SysOp::InvalidateIcache, SysOp::DataBarrier, SysOp::InstructionBarrier]
    );
    assert_eq!(enable_maintenance_operations(ExceptionLevel::El3, 0x1), vec![SysOp::WriteCpuEctlr(0x41)]);
    assert!(enable_maintenance_operations(ExceptionLevel::El1, 0x1).is_empty());
}

#[test]
fn translation_enable_sequence() {
    let ops = enable_translation(ExceptionLevel::El1, 0, 0x0, 0x4010_0000);
    let mut expected = set_mair_ttbr_tcr(0x44_ff00, 0x4010_0000, 0x2_051f);
    expected.extend(invalidate_icache_all());
    expected.extend(vec![
        SysOp::WriteSctlr(0xc0_181f),
        SysOp::InstructionBarrier,
        SysOp::DataBarrier,
        SysOp::InstructionBarrier,
    ]);
    assert_eq!(ops, expected);
    let el3 = enable_translation(ExceptionLevel::El3, 0x2, 0x0, 0x4010_0000);
    assert_eq!(el3[0], SysOp::WriteCpuEctlr(0x42));
    assert_eq!(el3.len(), ops.len() + 1);
}
