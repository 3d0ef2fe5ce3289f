//! Bit layouts of the translation-table descriptors (4 KiB granule).
use vstd::prelude::*;

verus! {

/// The page granule: 4096 bytes.
pub const PAGE_SIZE: u64 = 4096;

// Descriptor bits used below:
//   bit 0       valid
//   bit 1       table (at level 3: page); clear in a level-2 block
//   bits 2..5   memory attribute index
//   bit 7       AP[2], read-only at the current level
//   bits 8..9   shareability, 0b11 inner-shareable
//   bit 10      access flag
//   bits 12..47 output address of a table or page (36-bit frame number)
//   bits 21..47 output address of a level-2 block (27-bit region number)
//   bit 54      execute-never

/// Memory attribute indices, as programmed into MAIR.
pub const ATTR_MMIO: u64 = 0;

pub const ATTR_NORMAL: u64 = 1;

pub const ATTR_NORMAL_UNCACHED: u64 = 2;

/// Access permission requested for a page.
#[derive(Clone, Copy, Debug, PartialEq, Eq, Structural)]
pub enum MemoryPermission {
    Invalid,
    R,
    W,
    X,
    RW,
    RX,
    RWX,
}

pub open spec fn spec_permits_write(p: MemoryPermission) -> bool {
    p == MemoryPermission::W || p == MemoryPermission::RW || p == MemoryPermission::RWX
}

pub open spec fn spec_permits_execute(p: MemoryPermission) -> bool {
    p == MemoryPermission::X || p == MemoryPermission::RX || p == MemoryPermission::RWX
}

/// The access-permission and execute-never bits for a permission:
/// read-only unless writing is asked for, execute-never unless executing is.
pub open spec fn spec_permission_bits(p: MemoryPermission) -> u64 {
    (if spec_permits_write(p) { 0u64 } else { 0x80u64 }) | (if spec_permits_execute(p) { 0u64 } else { 0x40_0000_0000_0000u64 })
}

/// A table descriptor naming the table at `table_address`.
pub open spec fn spec_table_descriptor(table_address: u64) -> u64 {
    3u64 | (((table_address >> 12u64) & 0xf_ffff_ffffu64) << 12u64)
}

/// The fixed flags of a level-3 page descriptor with attribute index `attr`.
pub open spec fn spec_page_flags(attr: u64) -> u64 {
    3u64 | ((attr & 0xf) << 2u64) | 0x300u64 | 0x400u64
}

/// A level-3 page descriptor for frame `frame`; an `Invalid` permission gives
/// the all-zero (invalid) entry.
pub open spec fn spec_page_descriptor(frame: u64, p: MemoryPermission, attr: u64) -> u64 {
    if p == MemoryPermission::Invalid {
        0
    } else {
        spec_page_flags(attr) | spec_permission_bits(p) | ((frame & 0xf_ffff_ffffu64) << 12u64)
    }
}

/// A level-2 block descriptor for the 2 MiB region number `region`:
/// read-write, inner-shareable, access flag set.
pub open spec fn spec_block_descriptor(region: u64, attr: u64) -> u64 {
    1u64 | ((attr & 0xf) << 2u64) | 0x300u64 | 0x400u64 | ((region & 0x7ff_ffffu64) << 21u64)
}

pub open spec fn spec_is_valid(d: u64) -> bool {
    d & 1 != 0
}

pub open spec fn spec_is_table(d: u64) -> bool {
    d & 2 != 0
}

pub open spec fn spec_is_writable(d: u64) -> bool {
    d & 0x80 == 0
}

pub open spec fn spec_is_executable(d: u64) -> bool {
    d & 0x40_0000_0000_0000 == 0
}

/// Output address of a table or page descriptor.
pub open spec fn spec_output_address(d: u64) -> u64 {
    d & 0x0000_ffff_ffff_f000
}

/// Output address of a block descriptor.
pub open spec fn spec_block_address(d: u64) -> u64 {
    d & 0x0000_ffff_ffe0_0000
}

/// Attribute index of a leaf descriptor.
pub open spec fn spec_attr_index(d: u64) -> u64 {
    (d >> 2u64) & 0xf
}

pub fn permission_bits(p: MemoryPermission) -> (r: u64)
    ensures
        r == spec_permission_bits(p),
{
    match p {
        MemoryPermission::R | MemoryPermission::Invalid => {
            assert(0x80u64 | 0x40_0000_0000_0000u64 == 0x40_0000_0000_0080u64) by (bit_vector);
            0x40_0000_0000_0080
        },
        MemoryPermission::RW | MemoryPermission::W => {
            assert(0u64 | 0x40_0000_0000_0000u64 == 0x40_0000_0000_0000u64) by (bit_vector);
            0x40_0000_0000_0000
        },
        MemoryPermission::RWX => {
            assert(0u64 | 0u64 == 0u64) by (bit_vector);
            0
        },
        MemoryPermission::RX | MemoryPermission::X => {
            assert(0x80u64 | 0u64 == 0x80u64) by (bit_vector);
            0x80
        },
    }
}

pub fn table_descriptor(table_address: u64) -> (r: u64)
    ensures
        r == spec_table_descriptor(table_address),
{
    3u64 | (((table_address >> 12u64) & 0xf_ffff_ffffu64) << 12u64)
}

pub fn page_descriptor(frame: u64, p: MemoryPermission, attr: u64) -> (r: u64)
    ensures
        r == spec_page_descriptor(frame, p, attr),
{
    if p == MemoryPermission::Invalid {
        0
    } else {
        (3u64 | ((attr & 0xf) << 2u64) | 0x300u64 | 0x400u64)
            | permission_bits(p) | ((frame & 0xf_ffff_ffffu64) << 12u64)
    }
}

pub fn block_descriptor(region: u64, attr: u64) -> (r: u64)
    ensures
        r == spec_block_descriptor(region, attr),
{
    1u64 | ((attr & 0xf) << 2u64) | 0x300u64 | 0x400u64 | ((region & 0x7ff_ffffu64) << 21u64)
}

pub fn output_address(d: u64) -> (r: u64)
    ensures
        r == spec_output_address(d),
{
    d & 0x0000_ffff_ffff_f000
}

/// A table descriptor decodes back to the 4 KiB-aligned address it was made
/// from, and is a valid table entry.
pub proof fn lemma_table_descriptor_round_trip(a: u64)
    requires
        a % PAGE_SIZE == 0,
        a < 0x1_0000_0000_0000,
    ensures
        spec_output_address(spec_table_descriptor(a)) == a,
        spec_is_valid(spec_table_descriptor(a)),
        spec_is_table(spec_table_descriptor(a)),
{
    assert((a & 0xfff == 0 && a < 0x1_0000_0000_0000) ==> ((3u64 | (((a >> 12u64) & 0xf_ffff_ffffu64)
        << 12u64)) & 0x0000_ffff_ffff_f000u64) == a && (3u64 | (((a >> 12u64) & 0xf_ffff_ffffu64)
        << 12u64)) & 1u64 != 0 && (3u64 | (((a >> 12u64) & 0xf_ffff_ffffu64) << 12u64)) & 2u64
        != 0) by (bit_vector);
    assert(a & 0xfff == 0) by (bit_vector)
        requires
            a % 4096 == 0,
    ;
}

/// Any table descriptor is a valid table entry, hence not zero.
pub proof fn lemma_table_descriptor_is_table(a: u64)
    ensures
        spec_is_valid(spec_table_descriptor(a)),
        spec_is_table(spec_table_descriptor(a)),
        spec_table_descriptor(a) != 0,
{
    let d = spec_table_descriptor(a);
    assert(d == 3u64 | (((a >> 12u64) & 0xf_ffff_ffffu64) << 12u64));
    assert((3u64 | (((a >> 12u64) & 0xf_ffff_ffffu64) << 12u64)) & 1 != 0 && (3u64 | (((a
        >> 12u64) & 0xf_ffff_ffffu64) << 12u64)) & 2 != 0 && (3u64 | (((a >> 12u64)
        & 0xf_ffff_ffffu64) << 12u64)) != 0) by (bit_vector);
}

/// What the fields of a page descriptor hold.
pub proof fn lemma_page_descriptor_fields(frame: u64, p: MemoryPermission, attr: u64)
    requires
        p != MemoryPermission::Invalid,
    ensures
        spec_is_valid(spec_page_descriptor(frame, p, attr)),
        spec_is_table(spec_page_descriptor(frame, p, attr)),
        spec_is_writable(spec_page_descriptor(frame, p, attr)) == spec_permits_write(p),
        spec_is_executable(spec_page_descriptor(frame, p, attr)) == spec_permits_execute(p),
        spec_output_address(spec_page_descriptor(frame, p, attr)) == (frame
            % 0x10_0000_0000) * 4096,
        spec_attr_index(spec_page_descriptor(frame, p, attr)) == attr & 0xf,
{
    let w: u64 = if spec_permits_write(p) { 0 } else { 0x80 };
    let x: u64 = if spec_permits_execute(p) { 0 } else { 0x40_0000_0000_0000 };
    assert((w == 0 || w == 0x80) && (x == 0 || x == 0x40_0000_0000_0000) ==> {
        let d = (3u64 | ((attr & 0xf) << 2u64) | 0x300u64 | 0x400u64) | (w | x) | ((frame
            & 0xf_ffff_ffffu64) << 12u64);
        &&& d & 1 != 0
        &&& d & 2 != 0
        &&& (d & 0x80 == 0) == (w == 0)
        &&& (d & 0x40_0000_0000_0000 == 0) == (x == 0)
        &&& d & 0x0000_ffff_ffff_f000u64 == (frame & 0xf_ffff_ffffu64) << 12u64
        &&& (d >> 2u64) & 0xf == attr & 0xf
    }) by (bit_vector);
    assert((frame & 0xf_ffff_ffffu64) << 12u64 == (frame % 0x10_0000_0000) * 4096) by (
    bit_vector);
}

/// What the fields of a block descriptor hold: a valid, writable leaf at
/// level 2 whose output address is the start of its 2 MiB region.
pub proof fn lemma_block_descriptor_fields(region: u64, attr: u64)
    ensures
        spec_is_valid(spec_block_descriptor(region, attr)),
        !spec_is_table(spec_block_descriptor(region, attr)),
        spec_is_writable(spec_block_descriptor(region, attr)),
        spec_block_address(spec_block_descriptor(region, attr)) == (region % 0x800_0000)
            * 0x20_0000,
        spec_attr_index(spec_block_descriptor(region, attr)) == attr & 0xf,
{
    assert({
        let d = 1u64 | ((attr & 0xf) << 2u64) | 0x300u64 | 0x400u64 | ((region & 0x7ff_ffffu64)
            << 21u64);
        &&& d & 1 != 0
        &&& d & 2 == 0
        &&& d & 0x80 == 0
        &&& d & 0x0000_ffff_ffe0_0000u64 == (region & 0x7ff_ffffu64) << 21u64
        &&& (d >> 2u64) & 0xf == attr & 0xf
    }) by (bit_vector);
    assert((region & 0x7ff_ffffu64) << 21u64 == (region % 0x800_0000) * 0x20_0000) by (
    bit_vector);
}

} // verus!
