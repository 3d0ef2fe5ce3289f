//! The one-shot boot sequence: identity-map the image and the device
//! windows, then turn translation on.
use vstd::prelude::*;
use crate::descriptor::{MemoryPermission, ATTR_MMIO, ATTR_NORMAL};
use crate::regs::{ExceptionLevel, SysOp, enable_translation, spec_enable_translation};
use crate::table::{
    PageTables, TablesView, map_lvl2_block, map_normal_page, spec_link_lvl1, spec_map_blocks,
    spec_map_pages, spec_tlb_maintenance,
};

verus! {

/// Size of each device window.
pub const MMIO_WINDOW_SIZE: u64 = 0x20_0000;

/// Device windows mapped at boot, identity-mapped as blocks.
pub const MMIO_WINDOW_0: u64 = 0x5000_0000;

pub const MMIO_WINDOW_1: u64 = 0x6000_0000;

pub const MMIO_WINDOW_2: u64 = 0x7000_0000;

/// Start and end addresses of the image's sections, as the linker placed
/// them.
#[derive(Clone, Copy, Debug, PartialEq, Eq, Structural)]
pub struct SectionLayout {
    pub text_start: u64,
    pub text_end: u64,
    pub rodata_start: u64,
    pub rodata_end: u64,
    pub data_start: u64,
    pub data_end: u64,
    pub bss_start: u64,
    pub bss_end: u64,
    pub stack_start: u64,
    pub stack_end: u64,
    pub vectors_start: u64,
    pub vectors_end: u64,
}

impl SectionLayout {
    /// Every section ends at or after its start.
    pub open spec fn wf(&self) -> bool {
        &&& self.text_start <= self.text_end
        &&& self.rodata_start <= self.rodata_end
        &&& self.data_start <= self.data_end
        &&& self.bss_start <= self.bss_end
        &&& self.stack_start <= self.stack_end
        &&& self.vectors_start <= self.vectors_end
    }
}

/// Identity-maps the section `[start, end)` with `p`.
pub open spec fn spec_identity(v: TablesView, start: u64, end: u64, p: MemoryPermission) -> TablesView {
    spec_map_pages(v, start, start, (end - start) as u64, p, ATTR_NORMAL)
}

/// The tables after mapping the image: text and vectors read-execute,
/// read-only data read-only, data, bss and stack read-write, in that order.
pub open spec fn spec_executable_mapping(v: TablesView, l: SectionLayout) -> TablesView {
    let v1 = spec_identity(v, l.text_start, l.text_end, MemoryPermission::RX);
    let v2 = spec_identity(v1, l.rodata_start, l.rodata_end, MemoryPermission::R);
    let v3 = spec_identity(v2, l.data_start, l.data_end, MemoryPermission::RW);
    let v4 = spec_identity(v3, l.bss_start, l.bss_end, MemoryPermission::RW);
    let v5 = spec_identity(v4, l.stack_start, l.stack_end, MemoryPermission::RW);
    spec_identity(v5, l.vectors_start, l.vectors_end, MemoryPermission::RX)
}

/// The maintenance that mapping `[start, end)` asks for.
pub open spec fn spec_maintenance(start: u64, end: u64) -> Seq<SysOp> {
    if end - start == 0 {
        Seq::<SysOp>::empty()
    } else {
        spec_tlb_maintenance()
    }
}

pub open spec fn spec_executable_maintenance(l: SectionLayout) -> Seq<SysOp> {
    spec_maintenance(l.text_start, l.text_end) + spec_maintenance(l.rodata_start, l.rodata_end)
        + spec_maintenance(l.data_start, l.data_end) + spec_maintenance(l.bss_start, l.bss_end)
        + spec_maintenance(l.stack_start, l.stack_end) + spec_maintenance(
        l.vectors_start,
        l.vectors_end,
    )
}

/// The tables after the whole boot mapping: level-1 entries linked, the
/// image mapped, then the device windows mapped as blocks.
pub open spec fn spec_page_mapping(v: TablesView, l: SectionLayout) -> TablesView {
    let v1 = spec_executable_mapping(spec_link_lvl1(v), l);
    let v2 = spec_map_blocks(v1, MMIO_WINDOW_0, MMIO_WINDOW_0, MMIO_WINDOW_SIZE, ATTR_MMIO);
    let v3 = spec_map_blocks(v2, MMIO_WINDOW_1, MMIO_WINDOW_1, MMIO_WINDOW_SIZE, ATTR_MMIO);
    spec_map_blocks(v3, MMIO_WINDOW_2, MMIO_WINDOW_2, MMIO_WINDOW_SIZE, ATTR_MMIO)
}

fn map_section(
    tables: &mut PageTables,
    ops: &mut Vec<SysOp>,
    start: u64,
    end: u64,
    permission: MemoryPermission,
)
    requires
        old(tables).wf(),
        start <= end,
    ensures
        final(tables).wf(),
        final(tables)@ == spec_identity(old(tables)@, start, end, permission),
        final(ops)@ == old(ops)@ + spec_maintenance(start, end),
{
    let mut more = map_normal_page(tables, start, start, end - start, permission);
    ops.append(&mut more);
}

/// Identity-maps the image's sections. Returns the TLB maintenance to
/// perform after the writes.
pub fn init_executable_mapping(tables: &mut PageTables, layout: &SectionLayout) -> (r: Vec<SysOp>)
    requires
        old(tables).wf(),
        layout.wf(),
    ensures
        final(tables).wf(),
        final(tables)@ == spec_executable_mapping(old(tables)@, *layout),
        r@ == spec_executable_maintenance(*layout),
{
    let mut ops: Vec<SysOp> = Vec::new();
    map_section(tables, &mut ops, layout.text_start, layout.text_end, MemoryPermission::RX);
    map_section(tables, &mut ops, layout.rodata_start, layout.rodata_end, MemoryPermission::R);
    map_section(tables, &mut ops, layout.data_start, layout.data_end, MemoryPermission::RW);
    map_section(tables, &mut ops, layout.bss_start, layout.bss_end, MemoryPermission::RW);
    map_section(tables, &mut ops, layout.stack_start, layout.stack_end, MemoryPermission::RW);
    map_section(tables, &mut ops, layout.vectors_start, layout.vectors_end, MemoryPermission::RX);
    assert(ops@ =~= spec_executable_maintenance(*layout));
    ops
}

/// Builds the boot address space: links the level-1 entries, identity-maps
/// the image, then identity-maps the device windows as 2 MiB device blocks.
/// Returns the TLB maintenance to perform after the writes.
pub fn init_page_mapping(tables: &mut PageTables, layout: &SectionLayout) -> (r: Vec<SysOp>)
    requires
        old(tables).wf(),
        layout.wf(),
    ensures
        final(tables).wf(),
        final(tables)@ == spec_page_mapping(old(tables)@, *layout),
        r@ == spec_executable_maintenance(*layout),
{
    tables.link_lvl1_entries();
    let ops = init_executable_mapping(tables, layout);
    map_lvl2_block(tables, MMIO_WINDOW_0, MMIO_WINDOW_0, MMIO_WINDOW_SIZE, ATTR_MMIO);
    map_lvl2_block(tables, MMIO_WINDOW_1, MMIO_WINDOW_1, MMIO_WINDOW_SIZE, ATTR_MMIO);
    map_lvl2_block(tables, MMIO_WINDOW_2, MMIO_WINDOW_2, MMIO_WINDOW_SIZE, ATTR_MMIO);
    ops
}

/// The whole boot sequence at exception level `level`, given the CPUECTLR
/// and SCTLR values in force: builds the tables, then returns every
/// register operation to perform, in order: the maintenance of the table
/// writes, then the programming that turns translation on with TTBR0 at the
/// level-1 table.
pub fn setup(
    tables: &mut PageTables,
    layout: &SectionLayout,
    level: ExceptionLevel,
    cpu_ectlr: u64,
    sctlr: u64,
) -> (r: Vec<SysOp>)
    requires
        old(tables).wf(),
        layout.wf(),
    ensures
        final(tables).wf(),
        final(tables)@ == spec_page_mapping(old(tables)@, *layout),
        r@ == spec_executable_maintenance(*layout) + spec_enable_translation(
            level,
            cpu_ectlr,
            sctlr,
            old(tables).base,
        ),
{
    let mut ops = init_page_mapping(tables, layout);
    let mut more = enable_translation(level, cpu_ectlr, sctlr, tables.lvl1_table_address());
    ops.append(&mut more);
    ops
}

} // verus!
