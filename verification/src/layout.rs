//! The fixed physical-memory layout the wake protocol depends on.
//!
//! The trampoline image is copied to a reserved low-memory page whose page
//! number doubles as the STARTUP interrupt's boot vector.  The boot parameter
//! block sits at the top of that same page: three fixed word cells through
//! which the bootstrap processor passes the page-table root, the entry-point
//! address and the current candidate's stack top.  The local APIC's
//! memory-mapped register window sits at its architectural base.  These
//! addresses are physical; the caller translates each to a dereferenceable
//! address before touching it.

use vstd::prelude::*;

verus! {

/// Number of the physical page reserved for the trampoline image.  It is
/// also the vector carried by each STARTUP interrupt, which directs the
/// woken processor to begin executing at this page.
pub const BOOT_CODE_PAGE: u8 = 6;

/// Size of a physical page, in bytes.
pub const PAGE_SIZE: usize = 0x1000;

/// Physical base address of the reserved trampoline page.
pub const BOOT_CODE_PHYS: usize = 0x6000;

/// Physical address of the stack-top parameter cell, one word, rewritten
/// once per candidate processor immediately before its wake sequence.
pub const STACK_TOP_CELL: usize = 0x6fe8;

/// Physical address of the entry-point parameter cell, one word, written
/// once per bring-up session.
pub const ENTRY_POINT_CELL: usize = 0x6ff0;

/// Physical address of the page-table-root parameter cell, written once per
/// bring-up session.
pub const PAGE_TABLE_ROOT_CELL: usize = 0x6ff8;

/// Width in bytes of a word-sized parameter cell.
pub const PARAM_CELL_BYTES: usize = 8;

/// Width in bytes of the page-table-root cell, which holds a 32-bit value.
pub const PAGE_TABLE_ROOT_CELL_BYTES: usize = 4;

/// Physical base address of the local APIC's register window.
pub const APIC_BASE_PHYS: usize = 0xfee0_0000;

/// Size in bytes of the local APIC's register window.
pub const APIC_WINDOW_BYTES: usize = 0x1000;

/// A trampoline image of `len` bytes fits the reserved page without
/// touching the parameter cells above it.
pub open spec fn trampoline_fits(len: usize) -> bool {
    BOOT_CODE_PHYS + len <= STACK_TOP_CELL
}

/// A STARTUP interrupt carrying `BOOT_CODE_PAGE` as its vector starts the
/// woken processor exactly at the base of the page the trampoline was copied
/// to: the vector times the page size is the trampoline's physical base.
pub proof fn lemma_boot_vector_targets_trampoline()
    ensures
        BOOT_CODE_PAGE * PAGE_SIZE == BOOT_CODE_PHYS,
{
}

/// A trampoline image that fits the reserved page overlaps none of the three
/// parameter cells: every byte of the copied image lies strictly below every
/// byte of the stack-top, entry-point and page-table-root cells, which stand
/// one above the other at the top of the page.
pub proof fn lemma_trampoline_clear_of_cells(len: usize)
    requires
        trampoline_fits(len),
    ensures
        BOOT_CODE_PHYS + len <= STACK_TOP_CELL,
        STACK_TOP_CELL + PARAM_CELL_BYTES <= ENTRY_POINT_CELL,
        ENTRY_POINT_CELL + PARAM_CELL_BYTES <= PAGE_TABLE_ROOT_CELL,
        PAGE_TABLE_ROOT_CELL + PAGE_TABLE_ROOT_CELL_BYTES <= BOOT_CODE_PHYS
            + PAGE_SIZE,
{
}

} // verus!
