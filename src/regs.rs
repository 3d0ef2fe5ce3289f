//! Exception-level context: which register set is programmed, and the exact
//! sequences of system-register operations that switch, enable and maintain
//! translation. The sequences are values; the caller performs each operation
//! in order on the register set of the resolved exception level.
use vstd::prelude::*;

verus! {

/// SCTLR.I: instruction cache enable.
pub const SCTLR_I: u64 = 0x1000;

/// Memory attribute encodings: index 0 device nGnRnE, index 1 normal
/// write-back, index 2 normal non-cacheable.
pub const MAIR_VALUE: u64 = 0x44_ff00;

/// Translation control: 40-bit physical addresses, 4 KiB granule, write-back
/// write-allocate walks, 33-bit input addresses (T0SZ = 31).
pub const TCR_VALUE: u64 = 0x2_051f;

/// SCTLR bits raised by `setup`: the reserved-one bits, I, SA0, SA, C, A, M.
pub const SCTLR_SETUP_BITS: u64 = 0xc0_181f;

/// CPUECTLR bit that lets the core receive cache and TLB maintenance
/// broadcasts.
pub const CPUECTLR_SMPEN: u64 = 0x40;

/// The exception levels this core runs at.
#[derive(Clone, Copy, Debug, PartialEq, Eq, Structural)]
pub enum ExceptionLevel {
    El1,
    El2,
    El3,
}

/// One operation on the system registers of the current exception level.
#[derive(Clone, Copy, Debug, PartialEq, Eq, Structural)]
pub enum SysOp {
    WriteSctlr(u64),
    WriteTtbr0(u64),
    WriteTcr(u64),
    WriteMair(u64),
    WriteCpuEctlr(u64),
    /// Invalidate every TLB entry of the current translation regime.
    InvalidateTlb,
    /// Invalidate the whole instruction cache.
    InvalidateIcache,
    DataBarrier,
    InstructionBarrier,
}

pub open spec fn spec_level_of(current_el: u64) -> Option<ExceptionLevel> {
    let n = (current_el >> 2u64) & 3;
    if n == 1 {
        Some(ExceptionLevel::El1)
    } else if n == 2 {
        Some(ExceptionLevel::El2)
    } else if n == 3 {
        Some(ExceptionLevel::El3)
    } else {
        None
    }
}

impl ExceptionLevel {
    /// Resolves the level from the value of the CurrentEL register (level in
    /// bits 2 and 3). Level 0 is not supported and gives `None`.
    pub fn from_current_el(current_el: u64) -> (r: Option<ExceptionLevel>)
        ensures
            r == spec_level_of(current_el),
    {
        let n: u64 = (current_el >> 2) & 3;
        if n == 1 {
            Some(ExceptionLevel::El1)
        } else if n == 2 {
            Some(ExceptionLevel::El2)
        } else if n == 3 {
            Some(ExceptionLevel::El3)
        } else {
            None
        }
    }
}

pub open spec fn spec_set_sctlr(value: u64) -> Seq<SysOp> {
    seq![SysOp::WriteSctlr(value), SysOp::InstructionBarrier]
}

pub open spec fn spec_invalidate_tlb_all() -> Seq<SysOp> {
    seq![SysOp::InvalidateTlb, SysOp::DataBarrier, SysOp::InstructionBarrier]
}

pub open spec fn spec_invalidate_icache_all() -> Seq<SysOp> {
    seq![SysOp::InvalidateIcache, SysOp::DataBarrier, SysOp::InstructionBarrier]
}

/// SCTLR with the MMU, data cache and instruction cache disabled.
pub open spec fn spec_sctlr_translation_off(sctlr: u64) -> u64 {
    sctlr & !0x1005u64
}

pub open spec fn spec_switch_ttbr(sctlr: u64, address: u64) -> Seq<SysOp> {
    spec_set_sctlr(spec_sctlr_translation_off(sctlr)) + spec_invalidate_tlb_all() + seq![
        SysOp::WriteTtbr0(address),
        SysOp::InstructionBarrier,
    ] + spec_set_sctlr(sctlr)
}

/// Writes SCTLR, then synchronises.
pub fn set_sctlr(value: u64) -> (r: Vec<SysOp>)
    ensures
        r@ == spec_set_sctlr(value),
{
    vec![SysOp::WriteSctlr(value), SysOp::InstructionBarrier]
}

/// Invalidates the current regime's TLB, then synchronises.
pub fn invalidate_tlb_all() -> (r: Vec<SysOp>)
    ensures
        r@ == spec_invalidate_tlb_all(),
{
    vec![SysOp::InvalidateTlb, SysOp::DataBarrier, SysOp::InstructionBarrier]
}

/// Invalidates the instruction cache, then synchronises.
pub fn invalidate_icache_all() -> (r: Vec<SysOp>)
    ensures
        r@ == spec_invalidate_icache_all(),
{
    vec![SysOp::InvalidateIcache, SysOp::DataBarrier, SysOp::InstructionBarrier]
}

fn append_ops(ops: &mut Vec<SysOp>, more: Vec<SysOp>)
    ensures
        final(ops)@ == old(ops)@ + more@,
{
    let mut more = more;
    ops.append(&mut more);
}

/// Installs a new translation table base, given the SCTLR value in force:
/// disables the MMU and caches, invalidates the TLB, writes TTBR0,
/// synchronises, and restores the SCTLR value it started from.
pub fn switch_ttbr(sctlr: u64, address: u64) -> (r: Vec<SysOp>)
    ensures
        r@ == spec_switch_ttbr(sctlr, address),
{
    let mut ops = set_sctlr(sctlr & !0x1005u64);
    append_ops(&mut ops, invalidate_tlb_all());
    ops.push(SysOp::WriteTtbr0(address));
    ops.push(SysOp::InstructionBarrier);
    append_ops(&mut ops, set_sctlr(sctlr));
    ops
}

/// The SCTLR value in force after the operations `ops`, starting from
/// `initial`.
pub open spec fn spec_sctlr_after(initial: u64, ops: Seq<SysOp>) -> u64
    decreases ops.len(),
{
    if ops.len() == 0 {
        initial
    } else {
        match ops.last() {
            SysOp::WriteSctlr(v) => v,
            _ => spec_sctlr_after(initial, ops.drop_last()),
        }
    }
}

/// While a table base is switched, the MMU stays off from the disabling
/// write up to (not including) the restoring write: after every prefix of the
/// sequence that holds the first write and not the last, SCTLR.M reads 0.
/// The steps come in the order disable, TLB invalidate, TTBR0 write,
/// restore, and the starting SCTLR value is in force at the end.
pub proof fn lemma_switch_ttbr_mmu_off(sctlr: u64, address: u64)
    ensures
        ({
            let ops = spec_switch_ttbr(sctlr, address);
            &&& ops.len() == 9
            &&& ops[0] == SysOp::WriteSctlr(spec_sctlr_translation_off(sctlr))
            &&& ops[2] == SysOp::InvalidateTlb
            &&& ops[5] == SysOp::WriteTtbr0(address)
            &&& ops[7] == SysOp::WriteSctlr(sctlr)
            &&& forall|k: int|
                1 <= k <= 7 ==> #[trigger] spec_sctlr_after(sctlr, ops.take(k)) & 1 == 0
            &&& spec_sctlr_after(sctlr, ops) == sctlr
        }),
{
    let ops = spec_switch_ttbr(sctlr, address);
    let off = spec_sctlr_translation_off(sctlr);
    assert(off & 1 == 0) by (bit_vector)
        requires
            off == sctlr & !0x1005u64,
    ;
    assert(ops =~= seq![
        SysOp::WriteSctlr(off),
        SysOp::InstructionBarrier,
        SysOp::InvalidateTlb,
        SysOp::DataBarrier,
        SysOp::InstructionBarrier,
        SysOp::WriteTtbr0(address),
        SysOp::InstructionBarrier,
        SysOp::WriteSctlr(sctlr),
        SysOp::InstructionBarrier,
    ]);
    assert(ops.take(1).drop_last() =~= ops.take(0));
    assert(spec_sctlr_after(sctlr, ops.take(1)) == off);
    assert(ops.take(2).drop_last() =~= ops.take(1));
    assert(spec_sctlr_after(sctlr, ops.take(2)) == off);
    assert(ops.take(3).drop_last() =~= ops.take(2));
    assert(spec_sctlr_after(sctlr, ops.take(3)) == off);
    assert(ops.take(4).drop_last() =~= ops.take(3));
    assert(spec_sctlr_after(sctlr, ops.take(4)) == off);
    assert(ops.take(5).drop_last() =~= ops.take(4));
    assert(spec_sctlr_after(sctlr, ops.take(5)) == off);
    assert(ops.take(6).drop_last() =~= ops.take(5));
    assert(spec_sctlr_after(sctlr, ops.take(6)) == off);
    assert(ops.take(7).drop_last() =~= ops.take(6));
    assert(spec_sctlr_after(sctlr, ops.take(7)) == off);
    assert(ops.take(8).drop_last() =~= ops.take(7));
    assert(spec_sctlr_after(sctlr, ops.take(8)) == sctlr);
    assert(ops.drop_last() =~= ops.take(8));
}

/// Enables the instruction cache, given the SCTLR value in force.
pub fn enable_icache(sctlr: u64) -> (r: Vec<SysOp>)
    ensures
        r@ == spec_invalidate_icache_all() + spec_set_sctlr(sctlr | SCTLR_I),
{
    let mut ops = invalidate_icache_all();
    append_ops(&mut ops, set_sctlr(sctlr | SCTLR_I));
    ops
}

/// Disables the instruction cache, given the SCTLR value in force.
pub fn disable_icache(sctlr: u64) -> (r: Vec<SysOp>)
    ensures
        r@ == spec_set_sctlr(sctlr & !SCTLR_I),
{
    set_sctlr(sctlr & !SCTLR_I)
}

/// Whether SCTLR enables the instruction cache.
pub fn is_icache_enabled(sctlr: u64) -> (r: bool)
    ensures
        r == (sctlr & SCTLR_I != 0),
{
    (sctlr & SCTLR_I) != 0
}

/// At the highest level, lets the core receive maintenance broadcasts,
/// given the CPUECTLR value in force; at other levels does nothing.
pub fn enable_maintenance_operations(level: ExceptionLevel, cpu_ectlr: u64) -> (r: Vec<SysOp>)
    ensures
        level == ExceptionLevel::El3 ==> r@ == seq![SysOp::WriteCpuEctlr(cpu_ectlr | CPUECTLR_SMPEN)],
        level != ExceptionLevel::El3 ==> r@ == Seq::<SysOp>::empty(),
{
    let mut ops: Vec<SysOp> = Vec::new();
    if level == ExceptionLevel::El3 {
        ops.push(SysOp::WriteCpuEctlr(cpu_ectlr | CPUECTLR_SMPEN));
    }
    ops
}

pub open spec fn spec_set_mair_ttbr_tcr(mair: u64, ttbr: u64, tcr: u64) -> Seq<SysOp> {
    seq![
        SysOp::DataBarrier,
        SysOp::WriteMair(mair),
        SysOp::WriteTtbr0(ttbr),
        SysOp::WriteTcr(tcr),
        SysOp::InstructionBarrier,
    ]
}

/// Programs the memory attributes, the table base and the translation
/// control, between a data and an instruction barrier.
pub fn set_mair_ttbr_tcr(mair: u64, ttbr: u64, tcr: u64) -> (r: Vec<SysOp>)
    ensures
        r@ == spec_set_mair_ttbr_tcr(mair, ttbr, tcr),
{
    vec![
        SysOp::DataBarrier,
        SysOp::WriteMair(mair),
        SysOp::WriteTtbr0(ttbr),
        SysOp::WriteTcr(tcr),
        SysOp::InstructionBarrier,
    ]
}

pub open spec fn spec_enable_translation(
    level: ExceptionLevel,
    cpu_ectlr: u64,
    sctlr: u64,
    ttbr: u64,
) -> Seq<SysOp> {
    (if level == ExceptionLevel::El3 {
        seq![SysOp::WriteCpuEctlr(cpu_ectlr | CPUECTLR_SMPEN)]
    } else {
        Seq::<SysOp>::empty()
    }) + spec_set_mair_ttbr_tcr(MAIR_VALUE, ttbr, TCR_VALUE) + spec_invalidate_icache_all()
        + spec_set_sctlr(sctlr | SCTLR_SETUP_BITS) + seq![
        SysOp::DataBarrier,
        SysOp::InstructionBarrier,
    ]
}

/// The register part of `setup`, once the tables are built: maintenance
/// broadcasts, MAIR, TTBR0 (the level-1 table at `ttbr`), TCR, an
/// instruction-cache invalidation, then the caches, alignment checks and
/// MMU raised together in one SCTLR write, and a final barrier pair.
/// `cpu_ectlr` and `sctlr` are the values in force.
pub fn enable_translation(level: ExceptionLevel, cpu_ectlr: u64, sctlr: u64, ttbr: u64) -> (r:
    Vec<SysOp>)
    ensures
        r@ == spec_enable_translation(level, cpu_ectlr, sctlr, ttbr),
{
    let mut ops = enable_maintenance_operations(level, cpu_ectlr);
    append_ops(&mut ops, set_mair_ttbr_tcr(MAIR_VALUE, ttbr, TCR_VALUE));
    append_ops(&mut ops, invalidate_icache_all());
    append_ops(&mut ops, set_sctlr(sctlr | SCTLR_SETUP_BITS));
    ops.push(SysOp::DataBarrier);
    ops.push(SysOp::InstructionBarrier);
    ops
}

} // verus!
