//! The page-table store and the mapping engine.
//!
//! The store is an arena of 4 KiB table slots at physical address `base`:
//! slot 0 holds the level-1 table, slots 1 to 8 the level-2 tables (one per
//! level-1 entry) and the following 4096 slots the level-3 tables (one per
//! level-2 entry). Input addresses are 33 bits wide, so the level-1 table has
//! 8 entries. The level-2 entries of all level-2 tables are held as one
//! sequence of 4096 entries, indexed by `vaddr >> 21`, and the level-3
//! entries as one sequence of 2^21 entries, indexed by `vaddr >> 12`.
use vstd::prelude::*;
use vstd::arithmetic::div_mod::lemma_fundamental_div_mod_converse;
use crate::descriptor::{
    MemoryPermission, ATTR_NORMAL, block_descriptor, page_descriptor, table_descriptor,
    spec_block_descriptor, spec_page_descriptor, spec_table_descriptor, spec_is_valid,
    spec_is_table, spec_is_writable, spec_output_address, spec_block_address, spec_permits_write,
    lemma_table_descriptor_round_trip, lemma_table_descriptor_is_table,
    lemma_page_descriptor_fields, lemma_block_descriptor_fields,
};
use crate::fault::{InstructionFault, spec_instruction_fault};
use crate::regs::{SysOp, invalidate_tlb_all, spec_invalidate_tlb_all};

verus! {

/// Entries of the level-1 table.
pub const LVL1_ENTRIES: u64 = 8;

/// Level-2 entries over all level-2 tables.
pub const LVL2_ENTRIES: u64 = 4096;

/// Level-3 entries over all level-3 tables.
pub const LVL3_ENTRIES: u64 = 0x20_0000;

/// Bytes of the arena: 1 + 8 + 4096 table slots of 4 KiB.
pub const ARENA_SIZE: u64 = 0x100_9000;

/// Upper bound of the input address range (33 bits).
pub const INPUT_LIMIT: u64 = 0x2_0000_0000;

/// Upper bound of what a descriptor's address field can name (48 bits).
pub const OUTPUT_LIMIT: u64 = 0x1_0000_0000_0000;

/// Fault status codes reported by a walk.
pub const FSC_TRANSLATION_L0: u64 = 0b000100;

pub const FSC_TRANSLATION_L1: u64 = 0b000101;

pub const FSC_TRANSLATION_L2: u64 = 0b000110;

pub const FSC_TRANSLATION_L3: u64 = 0b000111;

pub const FSC_PERMISSION_L2: u64 = 0b001110;

pub const FSC_PERMISSION_L3: u64 = 0b001111;

/// The three-level translation tables of one address space.
pub struct PageTables {
    /// Physical address of the arena (of the level-1 table).
    pub base: u64,
    pub lvl1: Vec<u64>,
    pub lvl2: Vec<u64>,
    pub lvl3: Vec<u64>,
}

/// Physical address of the level-2 table that level-1 entry `i` names.
pub open spec fn spec_lvl2_table_address(base: u64, i: int) -> u64 {
    (base + (1 + i) * 4096) as u64
}

/// Physical address of the level-3 table that level-2 entry `j` names.
pub open spec fn spec_lvl3_table_address(base: u64, j: int) -> u64 {
    (base + (9 + j) * 4096) as u64
}

impl PageTables {
    pub open spec fn wf(&self) -> bool {
        &&& self.base % 4096 == 0
        &&& self.base + ARENA_SIZE <= OUTPUT_LIMIT
        &&& self.lvl1@.len() == LVL1_ENTRIES
        &&& self.lvl2@.len() == LVL2_ENTRIES
        &&& self.lvl3@.len() == LVL3_ENTRIES
        &&& forall|i: int|
            0 <= i < LVL1_ENTRIES ==> #[trigger] self.lvl1@[i] == 0 || self.lvl1@[i]
                == spec_table_descriptor(spec_lvl2_table_address(self.base, i))
        &&& forall|j: int|
            0 <= j < LVL2_ENTRIES ==> #[trigger] self.lvl2@[j] == 0 || self.lvl2@[j]
                == spec_table_descriptor(spec_lvl3_table_address(self.base, j)) || (spec_is_valid(
                self.lvl2@[j]) && !spec_is_table(self.lvl2@[j]))
    }

    /// Every level-1 entry names its level-2 table.
    pub open spec fn lvl1_linked(&self) -> bool {
        forall|i: int| 0 <= i < LVL1_ENTRIES ==> #[trigger] self.lvl1@[i] != 0
    }

    /// No level-2 entry is a block.
    pub open spec fn no_blocks(&self) -> bool {
        forall|j: int| 0 <= j < LVL2_ENTRIES ==> #[trigger] self.lvl2@[j] == 0 || spec_is_table(
            self.lvl2@[j])
    }

    /// An empty store whose arena starts at `base`: every entry is invalid.
    pub fn new(base: u64) -> (r: PageTables)
        requires
            base % 4096 == 0,
            base + ARENA_SIZE <= OUTPUT_LIMIT,
        ensures
            r.wf(),
            r.base == base,
            forall|i: int| 0 <= i < LVL1_ENTRIES ==> #[trigger] r.lvl1@[i] == 0,
            forall|j: int| 0 <= j < LVL2_ENTRIES ==> #[trigger] r.lvl2@[j] == 0,
            forall|x: int| 0 <= x < LVL3_ENTRIES ==> #[trigger] r.lvl3@[x] == 0,
    {
        PageTables {
            base,
            lvl1: zeroed(LVL1_ENTRIES as usize),
            lvl2: zeroed(LVL2_ENTRIES as usize),
            lvl3: zeroed(LVL3_ENTRIES as usize),
        }
    }

    /// Physical address of the level-1 table, for TTBR0.
    pub fn lvl1_table_address(&self) -> (r: u64)
        ensures
            r == self.base,
    {
        self.base
    }

    /// Points every level-1 entry at its level-2 table.
    pub fn link_lvl1_entries(&mut self)
        requires
            old(self).wf(),
        ensures
            final(self).wf(),
            final(self)@ == spec_link_lvl1(old(self)@),
            final(self).lvl1_linked(),
    {
        let mut i: usize = 0;
        while i < LVL1_ENTRIES as usize
            invariant
                self.wf(),
                self.base == old(self).base,
                self.lvl2@ == old(self).lvl2@,
                self.lvl3@ == old(self).lvl3@,
                i <= LVL1_ENTRIES,
                forall|k: int|
                    0 <= k < i ==> #[trigger] self.lvl1@[k] == spec_table_descriptor(
                        spec_lvl2_table_address(self.base, k)),
            decreases LVL1_ENTRIES - i,
        {
            let address: u64 = self.base + (1 + i as u64) * 4096;
            self.lvl1.set(i, table_descriptor(address));
            i = i + 1;
        }
        assert forall|k: int| 0 <= k < LVL1_ENTRIES implies #[trigger] self.lvl1@[k] != 0 by {
            lemma_table_descriptor_is_table(spec_lvl2_table_address(self.base, k));
        }
        assert(self.lvl1@ =~= spec_link_lvl1(old(self)@).lvl1);
    }
}

fn zeroed(n: usize) -> (r: Vec<u64>)
    ensures
        r@.len() == n,
        forall|i: int| 0 <= i < n ==> #[trigger] r@[i] == 0,
{
    let mut v: Vec<u64> = Vec::with_capacity(n);
    let mut i: usize = 0;
    while i < n
        invariant
            i <= n,
            v@.len() == i,
            forall|k: int| 0 <= k < i ==> #[trigger] v@[k] == 0,
        decreases n - i,
    {
        v.push(0);
        i = i + 1;
    }
    v
}


/// For a run of `count` consecutive indices starting at `start`, written in
/// order into a ring of `n` slots, the position in the run of the last write
/// that lands on slot `x`; negative when none does.
pub open spec fn last_hit(start: int, count: int, n: int, x: int) -> int {
    count - 1 - ((start + count - 1 - x) % n)
}

/// Level-3 entries after writing `count` pages from page number `vpn` on,
/// each to the frame that follows the previous one from `frame` on.
pub open spec fn spec_fill_lvl3(
    old: Seq<u64>,
    vpn: int,
    frame: int,
    count: int,
    p: MemoryPermission,
    attr: u64,
) -> Seq<u64> {
    Seq::new(
        old.len(),
        |x: int|
            {
                let k = last_hit(vpn, count, LVL3_ENTRIES as int, x);
                if k >= 0 {
                    spec_page_descriptor((frame + k) as u64, p, attr)
                } else {
                    old[x]
                }
            },
    )
}

/// Some page of the run falls under level-2 entry `j`.
pub open spec fn spec_touched(vpn: int, count: int, j: int) -> bool {
    exists|x: int|
        j * 512 <= x < j * 512 + 512 && #[trigger] last_hit(vpn, count, LVL3_ENTRIES as int, x)
            >= 0
}

/// Level-2 entries after the same run: an invalid entry over a touched range
/// now names its level-3 table; every other entry is kept.
pub open spec fn spec_fill_lvl2(old: Seq<u64>, base: u64, vpn: int, count: int) -> Seq<u64> {
    Seq::new(
        old.len(),
        |j: int|
            if old[j] == 0 && spec_touched(vpn, count, j) {
                spec_table_descriptor(spec_lvl3_table_address(base, j))
            } else {
                old[j]
            },
    )
}

/// Number of granules that `size` bytes cover, rounding up.
pub open spec fn spec_granules(size: u64, granule: u64) -> int {
    (size / granule) as int + (if size % granule == 0 { 0int } else { 1int })
}

/// The tables as values: the arena base and the entries of each level.
pub struct TablesView {
    pub base: u64,
    pub lvl1: Seq<u64>,
    pub lvl2: Seq<u64>,
    pub lvl3: Seq<u64>,
}

impl View for PageTables {
    type V = TablesView;

    open spec fn view(&self) -> TablesView {
        TablesView { base: self.base, lvl1: self.lvl1@, lvl2: self.lvl2@, lvl3: self.lvl3@ }
    }
}

/// The tables after writing the pages that `vaddr` and `size` cover, rounded
/// out to whole pages, mapped in order to the frames from `paddr` rounded
/// down on.
pub open spec fn spec_map_pages(
    v: TablesView,
    vaddr: u64,
    paddr: u64,
    size: u64,
    p: MemoryPermission,
    attr: u64,
) -> TablesView {
    let count = spec_granules(size, 4096);
    TablesView {
        base: v.base,
        lvl1: v.lvl1,
        lvl2: spec_fill_lvl2(v.lvl2, v.base, (vaddr / 4096) as int, count),
        lvl3: spec_fill_lvl3(v.lvl3, (vaddr / 4096) as int, (paddr / 4096) as int, count, p, attr),
    }
}

proof fn lemma_last_hit_start(start: int, n: int, x: int)
    requires
        n > 0,
    ensures
        last_hit(start, 0, n, x) < 0,
{
    vstd::arithmetic::div_mod::lemma_mod_bound(start - 1 - x, n);
}

/// One more write: it lands on `(start + i) % n` as the `i`th, and leaves the
/// last hit of every other slot as it was.
proof fn lemma_last_hit_step(start: int, i: int, n: int, x: int)
    requires
        n > 0,
        start >= 0,
        i >= 0,
        0 <= x < n,
    ensures
        x == (start + i) % n ==> last_hit(start, i + 1, n, x) == i,
        x != (start + i) % n ==> last_hit(start, i + 1, n, x) == last_hit(start, i, n, x),
{
    let a = start + i - 1 - x;
    let m = a % n;
    let q = a / n;
    vstd::arithmetic::div_mod::lemma_fundamental_div_mod(a, n);
    vstd::arithmetic::div_mod::lemma_mod_bound(a, n);
    vstd::arithmetic::div_mod::lemma_mod_bound(start + i, n);
    assert(a == q * n + m);
    if m + 1 < n {
        lemma_fundamental_div_mod_converse(a + 1, n, q, m + 1);
        assert(start + (i + 1) - 1 - x == a + 1);
        assert((start + (i + 1) - 1 - x) % n == m + 1);
        assert(last_hit(start, i + 1, n, x) == last_hit(start, i, n, x));
        if x == (start + i) % n {
            let q2 = (start + i) / n;
            vstd::arithmetic::div_mod::lemma_fundamental_div_mod(start + i, n);
            assert(a + 1 == n * q2);
            assert((q2 - q) * n == m + 1) by (nonlinear_arith)
                requires
                    a + 1 == q * n + m + 1,
                    a + 1 == n * q2,
            ;
            if q2 - q <= 0 {
                assert((q2 - q) * n <= 0) by (nonlinear_arith)
                    requires
                        q2 - q <= 0,
                        n > 0,
                ;
            } else {
                assert((q2 - q) * n >= n) by (nonlinear_arith)
                    requires
                        q2 - q >= 1,
                        n > 0,
                ;
            }
        }
    } else {
        assert(a + 1 == (q + 1) * n + 0) by (nonlinear_arith)
            requires
                a == q * n + m,
                m + 1 == n,
        ;
        lemma_fundamental_div_mod_converse(a + 1, n, q + 1, 0);
        vstd::arithmetic::div_mod::lemma_fundamental_div_mod(start + i, n);
        let q2 = (start + i) / n;
        let r2 = (start + i) % n;
        assert((q + 1 - q2) * n == r2 - x) by (nonlinear_arith)
            requires
                start + i - x == (q + 1) * n,
                start + i == n * q2 + r2,
        ;
        if q + 1 - q2 <= -1 {
            assert((q + 1 - q2) * n <= -n) by (nonlinear_arith)
                requires
                    q + 1 - q2 <= -1,
                    n > 0,
            ;
        } else if q + 1 - q2 >= 1 {
            assert((q + 1 - q2) * n >= n) by (nonlinear_arith)
                requires
                    q + 1 - q2 >= 1,
                    n > 0,
            ;
        } else {
            assert((q + 1 - q2) * n == 0) by (nonlinear_arith)
                requires
                    q + 1 - q2 == 0,
            ;
        }
    }
}

/// Slot `x` of a ring of `n` lies in the group of 512 slots `j` exactly when
/// `x / 512 == j`.
proof fn lemma_group(x: int, j: int)
    requires
        x >= 0,
        j >= 0,
    ensures
        (j * 512 <= x < j * 512 + 512) <==> x / 512 == j,
{
    vstd::arithmetic::div_mod::lemma_fundamental_div_mod(x, 512);
    if j * 512 <= x < j * 512 + 512 {
        lemma_fundamental_div_mod_converse(x, 512, j, x - j * 512);
    }
}

proof fn lemma_touched_step(vpn: int, i: int, j: int)
    requires
        vpn >= 0,
        i >= 0,
        0 <= j < LVL2_ENTRIES,
    ensures
        spec_touched(vpn, i + 1, j) == (spec_touched(vpn, i, j) || j == ((vpn + i) % (
        LVL3_ENTRIES as int)) / 512),
{
    let n = LVL3_ENTRIES as int;
    let s = (vpn + i) % n;
    if spec_touched(vpn, i + 1, j) {
        let x = choose|x: int|
            j * 512 <= x < j * 512 + 512 && #[trigger] last_hit(vpn, i + 1, n, x) >= 0;
        lemma_last_hit_step(vpn, i, n, x);
        if x == s {
            lemma_group(x, j);
        } else {
            assert(last_hit(vpn, i, n, x) >= 0);
        }
    }
    if spec_touched(vpn, i, j) {
        let x = choose|x: int| j * 512 <= x < j * 512 + 512 && #[trigger] last_hit(vpn, i, n, x) >= 0;
        lemma_last_hit_step(vpn, i, n, x);
        assert(last_hit(vpn, i + 1, n, x) >= 0);
    }
    if j == s / 512 {
        lemma_group(s, j);
        lemma_last_hit_step(vpn, i, n, s);
        assert(last_hit(vpn, i + 1, n, s) >= 0);
    }
}

impl PageTables {
    /// Writes the level-3 entry of page `vpn` (taken modulo the input range)
    /// for `frame`; first makes the level-2 entry above it name its level-3
    /// table if that entry is invalid.
    fn create_lvl3_page(&mut self, vpn: u64, frame: u64, permission: MemoryPermission, attr: u64)
        requires
            old(self).wf(),
        ensures
            final(self).wf(),
            final(self).base == old(self).base,
            final(self).lvl1@ == old(self).lvl1@,
            final(self).lvl3@ == old(self).lvl3@.update(
                (vpn % LVL3_ENTRIES) as int,
                spec_page_descriptor(frame, permission, attr),
            ),
            final(self).lvl2@ == (if old(self).lvl2@[(vpn % LVL3_ENTRIES) as int / 512] == 0 {
                old(self).lvl2@.update(
                    (vpn % LVL3_ENTRIES) as int / 512,
                    spec_table_descriptor(
                        spec_lvl3_table_address(old(self).base, (vpn % LVL3_ENTRIES) as int / 512),
                    ),
                )
            } else {
                old(self).lvl2@
            }),
    {
        let x: u64 = vpn % LVL3_ENTRIES;
        let j: u64 = x / 512;
        if self.lvl2[j as usize] == 0 {
            let address: u64 = self.base + (9 + j) * 4096;
            self.lvl2.set(j as usize, table_descriptor(address));
        }
        self.lvl3.set(x as usize, page_descriptor(frame, permission, attr));
    }

    /// Writes `count` consecutive pages from page number `vpn` on, to the
    /// frames from `frame` on.
    fn fill_pages(
        &mut self,
        vpn: u64,
        frame: u64,
        count: u64,
        permission: MemoryPermission,
        attr: u64,
    )
        requires
            old(self).wf(),
            vpn < 0x10_0000_0000_0000,
            frame < 0x10_0000_0000_0000,
            count <= 0x10_0000_0000_0000,
        ensures
            final(self).wf(),
            final(self).base == old(self).base,
            final(self).lvl1@ == old(self).lvl1@,
            final(self).lvl3@ == spec_fill_lvl3(
                old(self).lvl3@,
                vpn as int,
                frame as int,
                count as int,
                permission,
                attr,
            ),
            final(self).lvl2@ == spec_fill_lvl2(old(self).lvl2@, old(self).base, vpn as int, count as int),
    {
        let ghost l2 = self.lvl2@;
        let ghost l3 = self.lvl3@;
        let ghost n = LVL3_ENTRIES as int;
        proof {
            assert forall|x: int| 0 <= x < n implies #[trigger] last_hit(vpn as int, 0, n, x) < 0 by {
                lemma_last_hit_start(vpn as int, n, x);
            }
            assert(self.lvl3@ =~= spec_fill_lvl3(l3, vpn as int, frame as int, 0, permission, attr));
            assert forall|j: int| 0 <= j < LVL2_ENTRIES implies !#[trigger] spec_touched(vpn as int, 0, j) by {
                if spec_touched(vpn as int, 0, j) {
                    let x = choose|x: int|
                        j * 512 <= x < j * 512 + 512 && #[trigger] last_hit(vpn as int, 0, n, x) >= 0;
                    lemma_last_hit_start(vpn as int, n, x);
                }
            }
            assert(self.lvl2@ =~= spec_fill_lvl2(l2, self.base, vpn as int, 0));
        }
        let mut i: u64 = 0;
        while i < count
            invariant
                self.wf(),
                self.base == old(self).base,
                self.lvl1@ == old(self).lvl1@,
                l2 == old(self).lvl2@,
                l3 == old(self).lvl3@,
                n == LVL3_ENTRIES,
                vpn < 0x10_0000_0000_0000,
                frame < 0x10_0000_0000_0000,
                count <= 0x10_0000_0000_0000,
                i <= count,
                self.lvl3@ == spec_fill_lvl3(l3, vpn as int, frame as int, i as int, permission, attr),
                self.lvl2@ == spec_fill_lvl2(l2, self.base, vpn as int, i as int),
            decreases count - i,
        {
            self.create_lvl3_page(vpn + i, frame + i, permission, attr);
            proof {
                let s = (vpn + i) as int % n;
                assert((((vpn + i) as u64) % LVL3_ENTRIES) as int == s);
                assert forall|x: int| 0 <= x < n implies #[trigger] self.lvl3@[x] == spec_fill_lvl3(
                    l3, vpn as int, frame as int, i + 1, permission, attr)[x] by {
                    lemma_last_hit_step(vpn as int, i as int, n, x);
                }
                assert(self.lvl3@ =~= spec_fill_lvl3(l3, vpn as int, frame as int, i + 1, permission, attr));
                assert forall|j: int| 0 <= j < LVL2_ENTRIES implies #[trigger] self.lvl2@[j]
                    == spec_fill_lvl2(l2, self.base, vpn as int, i + 1)[j] by {
                    lemma_touched_step(vpn as int, i as int, j);
                    lemma_table_descriptor_is_table(spec_lvl3_table_address(self.base, j));
                }
                assert(self.lvl2@ =~= spec_fill_lvl2(l2, self.base, vpn as int, i + 1));
            }
            i = i + 1;
        }
    }
}


/// Level-2 entries after writing `count` consecutive 2 MiB blocks from region
/// number `region` on, to the output regions from `out` on.
pub open spec fn spec_fill_blocks(old: Seq<u64>, region: int, out: int, count: int, attr: u64) -> Seq<
    u64,
> {
    Seq::new(
        old.len(),
        |j: int|
            {
                let k = last_hit(region, count, LVL2_ENTRIES as int, j);
                if k >= 0 {
                    spec_block_descriptor((out + k) as u64, attr)
                } else {
                    old[j]
                }
            },
    )
}

/// The tables after mapping the 2 MiB regions that `vaddr` and `size` cover
/// as blocks for the output regions from `paddr` rounded down on.
pub open spec fn spec_map_blocks(v: TablesView, vaddr: u64, paddr: u64, size: u64, attr: u64) -> TablesView {
    TablesView {
        lvl2: spec_fill_blocks(
            v.lvl2,
            (vaddr / 0x20_0000) as int,
            (paddr / 0x20_0000) as int,
            spec_granules(size, 0x20_0000),
            attr,
        ),
        ..v
    }
}

/// The tables with every level-1 entry naming its level-2 table.
pub open spec fn spec_link_lvl1(v: TablesView) -> TablesView {
    TablesView {
        lvl1: Seq::new(LVL1_ENTRIES as nat, |i: int| spec_table_descriptor(spec_lvl2_table_address(v.base, i))),
        ..v
    }
}

/// The maintenance that ends a batch of table writes: a barrier pair, then
/// one invalidation of the current regime's TLB.
pub open spec fn spec_tlb_maintenance() -> Seq<SysOp> {
    seq![SysOp::DataBarrier, SysOp::InstructionBarrier] + spec_invalidate_tlb_all()
}

impl PageTables {
    /// Writes the level-2 entry of region `region` (modulo the input range)
    /// as a block for output region `out`.
    fn create_lvl2_block_entry(&mut self, region: u64, out: u64, attr: u64)
        requires
            old(self).wf(),
        ensures
            final(self).wf(),
            final(self).base == old(self).base,
            final(self).lvl1@ == old(self).lvl1@,
            final(self).lvl3@ == old(self).lvl3@,
            final(self).lvl2@ == old(self).lvl2@.update(
                (region % LVL2_ENTRIES) as int,
                spec_block_descriptor(out, attr),
            ),
    {
        proof {
            lemma_block_descriptor_fields(out, attr);
        }
        self.lvl2.set((region % LVL2_ENTRIES) as usize, block_descriptor(out, attr));
    }
}

fn tlb_maintenance() -> (r: Vec<SysOp>)
    ensures
        r@ == spec_tlb_maintenance(),
{
    let mut ops = vec![SysOp::DataBarrier, SysOp::InstructionBarrier];
    let mut more = invalidate_tlb_all();
    ops.append(&mut more);
    ops
}

fn granules(size: u64, granule: u64) -> (r: u64)
    requires
        granule >= 2,
    ensures
        r == spec_granules(size, granule),
{
    proof {
        vstd::arithmetic::div_mod::lemma_div_is_ordered_by_denominator(size as int, 2, granule as int);
    }
    size / granule + if size % granule == 0 { 0 } else { 1 }
}

/// Maps the pages that `[vaddr, vaddr + size)` touches to the frames from
/// `paddr` (rounded down to a page) on, with `permission` and attribute
/// index `memory_attribute`. Returns the TLB maintenance to perform after the
/// writes: none for a zero size, else one batch for the whole range.
pub fn map_page(
    tables: &mut PageTables,
    vaddr: u64,
    paddr: u64,
    size: u64,
    permission: MemoryPermission,
    memory_attribute: u64,
) -> (r: Vec<SysOp>)
    requires
        old(tables).wf(),
    ensures
        final(tables).wf(),
        final(tables)@ == spec_map_pages(old(tables)@, vaddr, paddr, size, permission, memory_attribute),
        size == 0 ==> final(tables)@ == old(tables)@ && r@ == Seq::<SysOp>::empty(),
        size > 0 ==> r@ == spec_tlb_maintenance(),
{
    if size == 0 {
        proof {
            let n = LVL3_ENTRIES as int;
            let vpn = (vaddr / 4096) as int;
            assert forall|x: int| 0 <= x < n implies #[trigger] last_hit(vpn, 0, n, x) < 0 by {
                lemma_last_hit_start(vpn, n, x);
            }
            assert(tables.lvl3@ =~= spec_fill_lvl3(tables.lvl3@, vpn, (paddr / 4096) as int, 0, permission, memory_attribute));
            assert forall|j: int| 0 <= j < LVL2_ENTRIES implies !#[trigger] spec_touched(vpn, 0, j) by {
                if spec_touched(vpn, 0, j) {
                    let x = choose|x: int|
                        j * 512 <= x < j * 512 + 512 && #[trigger] last_hit(vpn, 0, n, x) >= 0;
                    lemma_last_hit_start(vpn, n, x);
                }
            }
            assert(tables.lvl2@ =~= spec_fill_lvl2(tables.lvl2@, tables.base, vpn, 0));
        }
        return Vec::new();
    }
    let count = granules(size, 4096);
    tables.fill_pages(vaddr / 4096, paddr / 4096, count, permission, memory_attribute);
    tlb_maintenance()
}

/// `map_page` with the normal (cacheable) memory attribute.
pub fn map_normal_page(
    tables: &mut PageTables,
    vaddr: u64,
    paddr: u64,
    size: u64,
    permission: MemoryPermission,
) -> (r: Vec<SysOp>)
    requires
        old(tables).wf(),
    ensures
        final(tables).wf(),
        final(tables)@ == spec_map_pages(old(tables)@, vaddr, paddr, size, permission, ATTR_NORMAL),
        size == 0 ==> final(tables)@ == old(tables)@ && r@ == Seq::<SysOp>::empty(),
        size > 0 ==> r@ == spec_tlb_maintenance(),
{
    map_page(tables, vaddr, paddr, size, permission, ATTR_NORMAL)
}

/// Makes the pages that `[vaddr, vaddr + size)` touches invalid. Returns the
/// TLB maintenance to perform after the writes, as `map_page` does.
pub fn unmap_page(tables: &mut PageTables, vaddr: u64, size: u64) -> (r: Vec<SysOp>)
    requires
        old(tables).wf(),
    ensures
        final(tables).wf(),
        final(tables)@ == spec_map_pages(old(tables)@, vaddr, 0, size, MemoryPermission::Invalid, ATTR_NORMAL),
        size == 0 ==> final(tables)@ == old(tables)@ && r@ == Seq::<SysOp>::empty(),
        size > 0 ==> r@ == spec_tlb_maintenance(),
{
    map_page(tables, vaddr, 0, size, MemoryPermission::Invalid, ATTR_NORMAL)
}

/// Maps the 2 MiB regions that `[vaddr, vaddr + size)` touches, directly at
/// level 2, as read-write blocks for the output regions from `paddr`
/// (rounded down to 2 MiB) on, with attribute index `memory_attribute`.
pub fn map_lvl2_block(tables: &mut PageTables, vaddr: u64, paddr: u64, size: u64, memory_attribute: u64)
    requires
        old(tables).wf(),
    ensures
        final(tables).wf(),
        final(tables)@ == spec_map_blocks(old(tables)@, vaddr, paddr, size, memory_attribute),
{
    let count = granules(size, 0x20_0000);
    let region = vaddr / 0x20_0000;
    let out = paddr / 0x20_0000;
    let ghost l2 = tables.lvl2@;
    let ghost n = LVL2_ENTRIES as int;
    proof {
        assert forall|j: int| 0 <= j < n implies #[trigger] last_hit(region as int, 0, n, j) < 0 by {
            lemma_last_hit_start(region as int, n, j);
        }
        assert(tables.lvl2@ =~= spec_fill_blocks(l2, region as int, out as int, 0, memory_attribute));
    }
    let mut i: u64 = 0;
    while i < count
        invariant
            tables.wf(),
            tables.base == old(tables).base,
            tables.lvl1@ == old(tables).lvl1@,
            tables.lvl3@ == old(tables).lvl3@,
            l2 == old(tables).lvl2@,
            n == LVL2_ENTRIES,
            region < 0x10_0000_0000_0000,
            out < 0x10_0000_0000_0000,
            count <= 0x10_0000_0000_0000,
            i <= count,
            tables.lvl2@ == spec_fill_blocks(l2, region as int, out as int, i as int, memory_attribute),
        decreases count - i,
    {
        tables.create_lvl2_block_entry(region + i, out + i, memory_attribute);
        proof {
            assert forall|j: int| 0 <= j < n implies #[trigger] tables.lvl2@[j] == spec_fill_blocks(
                l2, region as int, out as int, i + 1, memory_attribute)[j] by {
                lemma_last_hit_step(region as int, i as int, n, j);
            }
            assert(tables.lvl2@ =~= spec_fill_blocks(l2, region as int, out as int, i + 1, memory_attribute));
        }
        i = i + 1;
    }
}


/// Result of a stage-1 walk for an access to `va`: the physical address, or
/// the fault status code that the abort reports. Addresses outside the
/// 33-bit input range fault at level 0; a write to a read-only leaf is a
/// permission fault at the leaf's level.
pub open spec fn spec_translate(t: PageTables, va: u64, write: bool) -> Result<u64, u64> {
    if va >= INPUT_LIMIT {
        Err(FSC_TRANSLATION_L0)
    } else {
        let e1 = t.lvl1@[(va / 0x4000_0000) as int];
        let e2 = t.lvl2@[(va / 0x20_0000) as int];
        let e3 = t.lvl3@[(va / 4096) as int];
        if !spec_is_valid(e1) {
            Err(FSC_TRANSLATION_L1)
        } else if !spec_is_valid(e2) {
            Err(FSC_TRANSLATION_L2)
        } else if !spec_is_table(e2) {
            if write && !spec_is_writable(e2) {
                Err(FSC_PERMISSION_L2)
            } else {
                Ok((spec_block_address(e2) + va % 0x20_0000) as u64)
            }
        } else if !spec_is_valid(e3) {
            Err(FSC_TRANSLATION_L3)
        } else if write && !spec_is_writable(e3) {
            Err(FSC_PERMISSION_L3)
        } else {
            Ok((spec_output_address(e3) + va % 4096) as u64)
        }
    }
}

impl PageTables {
    /// Walks the tables for a read (`write == false`) or write access to
    /// `vaddr`, as the MMU does once this store is active.
    pub fn translate(&self, vaddr: u64, write: bool) -> (r: Result<u64, u64>)
        requires
            self.wf(),
        ensures
            r == spec_translate(*self, vaddr, write),
    {
        if vaddr >= INPUT_LIMIT {
            return Err(FSC_TRANSLATION_L0);
        }
        let e1 = self.lvl1[(vaddr / 0x4000_0000) as usize];
        let e2 = self.lvl2[(vaddr / 0x20_0000) as usize];
        let e3 = self.lvl3[(vaddr / 4096) as usize];
        if e1 & 1 == 0 {
            Err(FSC_TRANSLATION_L1)
        } else if e2 & 1 == 0 {
            Err(FSC_TRANSLATION_L2)
        } else if e2 & 2 == 0 {
            if write && e2 & 0x80 != 0 {
                Err(FSC_PERMISSION_L2)
            } else {
                assert(e2 & 0x0000_ffff_ffe0_0000u64 <= 0x0000_ffff_ffe0_0000u64) by (bit_vector);
                Ok((e2 & 0x0000_ffff_ffe0_0000) + vaddr % 0x20_0000)
            }
        } else if e3 & 1 == 0 {
            Err(FSC_TRANSLATION_L3)
        } else if write && e3 & 0x80 != 0 {
            Err(FSC_PERMISSION_L3)
        } else {
            assert(e3 & 0x0000_ffff_ffff_f000u64 <= 0x0000_ffff_ffff_f000u64) by (bit_vector);
            Ok((e3 & 0x0000_ffff_ffff_f000) + vaddr % 4096)
        }
    }
}

/// A page `k` places into a run of `count` is covered, and, when the run
/// does not wrap around the level-3 range, its last write is its own.
proof fn lemma_covered(vpn: int, count: int, k: int)
    requires
        vpn >= 0,
        0 <= k < count,
    ensures
        last_hit(vpn, count, LVL3_ENTRIES as int, (vpn + k) % (LVL3_ENTRIES as int)) >= 0,
        count <= LVL3_ENTRIES ==> last_hit(
            vpn,
            count,
            LVL3_ENTRIES as int,
            (vpn + k) % (LVL3_ENTRIES as int),
        ) == k,
{
    let n = LVL3_ENTRIES as int;
    let x = (vpn + k) % n;
    let q = (vpn + k) / n;
    vstd::arithmetic::div_mod::lemma_fundamental_div_mod(vpn + k, n);
    let d = count - 1 - k;
    assert(vpn + count - 1 - x == n * q + d);
    vstd::arithmetic::div_mod::lemma_mod_multiples_vanish(q, d, n);
    assert((vpn + count - 1 - x) % n == d % n);
    vstd::arithmetic::div_mod::lemma_mod_bound(d, n);
    vstd::arithmetic::div_mod::lemma_mod_decreases(d as nat, n as nat);
    if count <= n {
        vstd::arithmetic::div_mod::lemma_small_mod(d as nat, n as nat);
    }
}

/// What a walk gives for a page that a write of pages covered, in tables
/// whose level-1 entries are linked and that hold no blocks: a translation
/// fault at level 3 after an unmap; a permission fault at level 3 for a
/// write to a page without write permission; otherwise the page's frame,
/// the same for reads and writes.
pub proof fn lemma_translate_written(
    old: PageTables,
    new: PageTables,
    vaddr: u64,
    paddr: u64,
    size: u64,
    p: MemoryPermission,
    attr: u64,
    a: u64,
    write: bool,
)
    requires
        old.wf(),
        new.wf(),
        old.lvl1_linked(),
        old.no_blocks(),
        new@ == spec_map_pages(old@, vaddr, paddr, size, p, attr),
        vaddr / 4096 <= a / 4096 < (vaddr / 4096) + spec_granules(size, 4096),
        a < INPUT_LIMIT,
    ensures
        ({
            let k = a / 4096 - vaddr / 4096;
            let x = (a / 4096) as int;
            let frame = (paddr / 4096 + last_hit((vaddr / 4096) as int, spec_granules(size, 4096), LVL3_ENTRIES as int, x)) as u64;
            &&& p == MemoryPermission::Invalid ==> spec_translate(new, a, write) == Err::<u64, u64>(
                FSC_TRANSLATION_L3)
            &&& (p != MemoryPermission::Invalid && write && !spec_permits_write(p))
                ==> spec_translate(new, a, write) == Err::<u64, u64>(FSC_PERMISSION_L3)
            &&& (p != MemoryPermission::Invalid && (!write || spec_permits_write(p)))
                ==> spec_translate(new, a, write) == Ok::<u64, u64>(
                ((frame % 0x10_0000_0000) * 4096 + a % 4096) as u64)
            &&& spec_granules(size, 4096) <= LVL3_ENTRIES ==> frame == paddr / 4096 + k
        }),
{
    let n = LVL3_ENTRIES as int;
    let vpn = (vaddr / 4096) as int;
    let count = spec_granules(size, 4096);
    let k = a / 4096 - vaddr / 4096;
    let x = (a / 4096) as int;
    vstd::arithmetic::div_mod::lemma_small_mod(x as nat, n as nat);
    assert((vpn + k) % n == x);
    lemma_covered(vpn, count, k);
    let lh = last_hit(vpn, count, n, x);
    let j = (a / 0x20_0000) as int;
    let i = (a / 0x4000_0000) as int;
    assert(x / 512 == j) by {
        vstd::arithmetic::div_mod::lemma_div_denominator(a as int, 4096, 512);
    }
    assert(j < LVL2_ENTRIES);
    assert(i < LVL1_ENTRIES);
    lemma_group(x, j);
    assert(spec_touched(vpn, count, j));
    // level 1: linked
    lemma_table_descriptor_is_table(spec_lvl2_table_address(old.base, i));
    assert(new.lvl1@[i] == old.lvl1@[i]);
    // level 2: a table entry
    lemma_table_descriptor_is_table(spec_lvl3_table_address(old.base, j));
    assert(spec_is_valid(new.lvl2@[j]) && spec_is_table(new.lvl2@[j]));
    // level 3: the page
    assert(new.lvl3@[x] == spec_page_descriptor((paddr / 4096 + lh) as u64, p, attr));
    if p != MemoryPermission::Invalid {
        lemma_page_descriptor_fields((paddr / 4096 + lh) as u64, p, attr);
    } else {
        assert(0u64 & 1 == 0) by (bit_vector);
    }
}

/// Mapping a range read-write makes every covered address translate, for
/// writes and for reads alike, to one physical address: a pattern written
/// there reads back unchanged. Where the range does not wrap around the
/// 33-bit input range, that address lies as far past `paddr`'s page as `a`
/// lies past `vaddr`'s.
pub proof fn lemma_map_rw_reads_back(
    old: PageTables,
    new: PageTables,
    vaddr: u64,
    paddr: u64,
    size: u64,
    attr: u64,
    a: u64,
)
    requires
        old.wf(),
        new.wf(),
        old.lvl1_linked(),
        old.no_blocks(),
        new@ == spec_map_pages(old@, vaddr, paddr, size, MemoryPermission::RW, attr),
        vaddr / 4096 <= a / 4096 < (vaddr / 4096) + spec_granules(size, 4096),
        a < INPUT_LIMIT,
    ensures
        spec_translate(new, a, true) is Ok,
        spec_translate(new, a, true) == spec_translate(new, a, false),
        spec_granules(size, 4096) <= LVL3_ENTRIES ==> spec_translate(new, a, false) == Ok::<
            u64,
            u64,
        >((((paddr / 4096 + (a / 4096 - vaddr / 4096)) % 0x10_0000_0000) * 4096 + a % 4096) as u64),
{
    lemma_translate_written(old, new, vaddr, paddr, size, MemoryPermission::RW, attr, a, true);
    lemma_translate_written(old, new, vaddr, paddr, size, MemoryPermission::RW, attr, a, false);
}

/// Writing to a page mapped read-only aborts with a level-3 permission fault;
/// reading it succeeds.
pub proof fn lemma_write_to_read_only_faults(
    old: PageTables,
    new: PageTables,
    vaddr: u64,
    paddr: u64,
    size: u64,
    attr: u64,
    a: u64,
)
    requires
        old.wf(),
        new.wf(),
        old.lvl1_linked(),
        old.no_blocks(),
        new@ == spec_map_pages(old@, vaddr, paddr, size, MemoryPermission::R, attr),
        vaddr / 4096 <= a / 4096 < (vaddr / 4096) + spec_granules(size, 4096),
        a < INPUT_LIMIT,
    ensures
        spec_translate(new, a, true) == Err::<u64, u64>(FSC_PERMISSION_L3),
        spec_instruction_fault(FSC_PERMISSION_L3) == InstructionFault::Permission(3),
        spec_translate(new, a, false) is Ok,
{
    lemma_translate_written(old, new, vaddr, paddr, size, MemoryPermission::R, attr, a, true);
    lemma_translate_written(old, new, vaddr, paddr, size, MemoryPermission::R, attr, a, false);
}

/// After an unmap, reading or writing an address of the range aborts with a
/// translation fault at level 3, the deepest level that is populated.
pub proof fn lemma_unmapped_access_faults(
    old: PageTables,
    new: PageTables,
    vaddr: u64,
    size: u64,
    a: u64,
    write: bool,
)
    requires
        old.wf(),
        new.wf(),
        old.lvl1_linked(),
        old.no_blocks(),
        new@ == spec_map_pages(old@, vaddr, 0, size, MemoryPermission::Invalid, ATTR_NORMAL),
        vaddr / 4096 <= a / 4096 < (vaddr / 4096) + spec_granules(size, 4096),
        a < INPUT_LIMIT,
    ensures
        spec_translate(new, a, write) == Err::<u64, u64>(FSC_TRANSLATION_L3),
        spec_instruction_fault(FSC_TRANSLATION_L3) == InstructionFault::Translation(3),
{
    lemma_translate_written(old, new, vaddr, 0, size, MemoryPermission::Invalid, ATTR_NORMAL, a, write);
}

/// Mapping the same range with the same permission and attribute twice
/// leaves the tables exactly as mapping it once.
pub proof fn lemma_map_idempotent(
    t0: PageTables,
    t1: PageTables,
    t2: PageTables,
    vaddr: u64,
    paddr: u64,
    size: u64,
    p: MemoryPermission,
    attr: u64,
)
    requires
        t0.wf(),
        t1@ == spec_map_pages(t0@, vaddr, paddr, size, p, attr),
        t2@ == spec_map_pages(t1@, vaddr, paddr, size, p, attr),
    ensures
        t2@ == t1@,
{
    assert(t2.lvl3@ =~= t1.lvl3@);
    assert forall|j: int| 0 <= j < t1.lvl2@.len() implies #[trigger] t2.lvl2@[j] == t1.lvl2@[j] by {
        lemma_table_descriptor_is_table(spec_lvl3_table_address(t0.base, j));
    }
    assert(t2.lvl2@ =~= t1.lvl2@);
}

/// Every level-2 entry that names a table holds, in its address field, the
/// physical base of the level-3 table it stands over.
pub proof fn lemma_lvl2_table_address_round_trip(t: PageTables, j: int)
    requires
        t.wf(),
        0 <= j < LVL2_ENTRIES,
        t.lvl2@[j] != 0,
        spec_is_table(t.lvl2@[j]),
    ensures
        spec_output_address(t.lvl2@[j]) == spec_lvl3_table_address(t.base, j),
{
    let a = spec_lvl3_table_address(t.base, j);
    assert(a % 4096 == 0) by {
        vstd::arithmetic::div_mod::lemma_mod_multiples_vanish(9 + j, t.base as int, 4096);
    }
    lemma_table_descriptor_round_trip(a);
}

} // verus!
