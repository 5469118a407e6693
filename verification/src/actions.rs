//! The boot actions and the plans built from them.
//!
//! A bring-up session is modelled as an ordered sequence of boot actions.
//! The prologue writes the two shared parameter cells and installs the
//! trampoline; then, for each candidate processor in ascending order, a wake
//! block writes that candidate's stack top and drives the INIT–SIPI–SIPI
//! protocol with its settle delays.  The plan specifications here pin every
//! action and its position exactly; the sequencer's executable functions and
//! the ordering lemmas are stated against them.

use vstd::prelude::*;
use crate::layout::APIC_BASE_PHYS;
use crate::layout::BOOT_CODE_PAGE;
use crate::layout::BOOT_CODE_PHYS;
use crate::layout::ENTRY_POINT_CELL;
use crate::layout::PAGE_TABLE_ROOT_CELL;
use crate::layout::STACK_TOP_CELL;

verus! {

/// Lowest candidate processor ID: the bootstrap processor is ID 0 and is
/// never targeted.
pub const FIRST_AP_ID: u8 = 1;

/// One past the highest candidate processor ID in the reference
/// configuration: candidates are `FIRST_AP_ID..CANDIDATE_ID_END`.
pub const CANDIDATE_ID_END: u8 = 64;

/// Minimum settle time after the INIT-assert interrupt, in microseconds.
pub const INIT_ASSERT_SETTLE_US: u64 = 200;

/// Minimum settle time after the INIT-deassert interrupt, in microseconds
/// (architectural requirement).
pub const INIT_DEASSERT_SETTLE_US: u64 = 10_000;

/// Minimum settle time after each STARTUP interrupt, in microseconds.
pub const STARTUP_SETTLE_US: u64 = 200;

/// Extra wait after a candidate's full sequence, before the next candidate's
/// stack cell may be rewritten, in microseconds.
pub const WAKE_GRACE_US: u64 = 10_000;

/// One step of a bring-up session, as handed to the hardware-facing caller.
///
/// Memory-touching actions name their target only implicitly: each goes to
/// the fixed physical location the layout module assigns it.
#[derive(Clone, Copy, Debug, PartialEq, Eq, Structural)]
pub enum BootAction {
    /// Write the page-table root into its shared parameter cell.
    WritePageTableRoot { root: u32 },
    /// Write the entry-point address into its shared parameter cell.
    WriteEntryPoint { entry: usize },
    /// Copy the `len`-byte trampoline image to its reserved page.
    InstallTrampoline { len: usize },
    /// Write one candidate's stack top into the stack parameter cell.
    WriteStackTop { stack_top: usize },
    /// Send the INIT-assert interrupt to the candidate.
    InitAssert { apic_id: u8 },
    /// Send the INIT-deassert interrupt.
    InitDeassert,
    /// Send a STARTUP interrupt directing the candidate to the page named by
    /// `vector`.
    Startup { apic_id: u8, vector: u8 },
    /// Busy-wait for at least `us` microseconds.
    DelayUs { us: u64 },
}

/// The action is an interprocessor interrupt of any kind.
pub open spec fn is_ipi(a: BootAction) -> bool {
    match a {
        BootAction::InitAssert { .. } => true,
        BootAction::InitDeassert => true,
        BootAction::Startup { .. } => true,
        _ => false,
    }
}

/// The action writes the stack-top parameter cell.
pub open spec fn is_stack_write(a: BootAction) -> bool {
    match a {
        BootAction::WriteStackTop { .. } => true,
        _ => false,
    }
}

/// The action writes the page-table-root parameter cell.
pub open spec fn is_page_table_root_write(a: BootAction) -> bool {
    match a {
        BootAction::WritePageTableRoot { .. } => true,
        _ => false,
    }
}

/// The action writes the entry-point parameter cell.
pub open spec fn is_entry_point_write(a: BootAction) -> bool {
    match a {
        BootAction::WriteEntryPoint { .. } => true,
        _ => false,
    }
}

/// The action installs the trampoline.
pub open spec fn is_install(a: BootAction) -> bool {
    match a {
        BootAction::InstallTrampoline { .. } => true,
        _ => false,
    }
}

/// The action is a STARTUP interrupt aimed at `apic_id`.
pub open spec fn is_startup_for(a: BootAction, apic_id: u8) -> bool {
    match a {
        BootAction::Startup { apic_id: id, .. } => id == apic_id,
        _ => false,
    }
}

/// Number of actions in the session prologue.
pub const PROLOGUE_LEN: usize = 3;

/// Number of actions in one candidate's wake block.
pub const WAKE_BLOCK_LEN: usize = 10;

/// The session prologue: both shared parameter cells written, then the
/// trampoline installed — all strictly before any candidate is touched.
pub open spec fn prologue_plan(
    page_table_root: u32,
    entry_point: usize,
    trampoline_len: usize,
) -> Seq<BootAction> {
    seq![
        BootAction::WritePageTableRoot { root: page_table_root },
        BootAction::WriteEntryPoint { entry: entry_point },
        BootAction::InstallTrampoline { len: trampoline_len },
    ]
}

/// One candidate's wake block: its stack top written, then INIT-assert,
/// INIT-deassert and two STARTUP interrupts in that fixed order, each
/// followed by its settle delay, closed by the grace wait that keeps the
/// stack cell unchanged until the candidate has consumed it.
pub open spec fn wake_block(apic_id: u8, stack_top: usize) -> Seq<BootAction> {
    seq![
        BootAction::WriteStackTop { stack_top },
        BootAction::InitAssert { apic_id },
        BootAction::DelayUs { us: INIT_ASSERT_SETTLE_US },
        BootAction::InitDeassert,
        BootAction::DelayUs { us: INIT_DEASSERT_SETTLE_US },
        BootAction::Startup { apic_id, vector: BOOT_CODE_PAGE },
        BootAction::DelayUs { us: STARTUP_SETTLE_US },
        BootAction::Startup { apic_id, vector: BOOT_CODE_PAGE },
        BootAction::DelayUs { us: STARTUP_SETTLE_US },
        BootAction::DelayUs { us: WAKE_GRACE_US },
    ]
}

/// The wake blocks of a whole session, one after the other: block `k` wakes
/// candidate `first_id + k` with stack top `stacks[k]`, in ascending ID
/// order with no overlap.
pub open spec fn wake_plan(first_id: u8, stacks: Seq<usize>) -> Seq<BootAction> {
    Seq::new(
        stacks.len() * 10,
        |j: int| wake_block((first_id + j / 10) as u8, stacks[j / 10])[j % 10],
    )
}

/// The physical address an action touches: the parameter cell it writes,
/// the base of the page the trampoline is copied to, or the local APIC's
/// register window for an interrupt; a delay touches no memory.
pub open spec fn action_target_phys_spec(a: BootAction) -> Option<usize> {
    match a {
        BootAction::WritePageTableRoot { .. } => Some(PAGE_TABLE_ROOT_CELL),
        BootAction::WriteEntryPoint { .. } => Some(ENTRY_POINT_CELL),
        BootAction::WriteStackTop { .. } => Some(STACK_TOP_CELL),
        BootAction::InstallTrampoline { .. } => Some(BOOT_CODE_PHYS),
        BootAction::InitAssert { .. } => Some(APIC_BASE_PHYS),
        BootAction::InitDeassert => Some(APIC_BASE_PHYS),
        BootAction::Startup { .. } => Some(APIC_BASE_PHYS),
        BootAction::DelayUs { .. } => None,
    }
}

/// Returns the physical address an action touches, if any.  The caller
/// translates it to a dereferenceable address before performing the action;
/// no action is ever performed on a raw physical address.
pub fn action_target_phys(a: &BootAction) -> (target: Option<usize>)
    ensures
        target == action_target_phys_spec(*a),
{
    match *a {
        BootAction::WritePageTableRoot { .. } => Some(PAGE_TABLE_ROOT_CELL),
        BootAction::WriteEntryPoint { .. } => Some(ENTRY_POINT_CELL),
        BootAction::WriteStackTop { .. } => Some(STACK_TOP_CELL),
        BootAction::InstallTrampoline { .. } => Some(BOOT_CODE_PHYS),
        BootAction::InitAssert { .. } => Some(APIC_BASE_PHYS),
        BootAction::InitDeassert => Some(APIC_BASE_PHYS),
        BootAction::Startup { .. } => Some(APIC_BASE_PHYS),
        BootAction::DelayUs { .. } => None,
    }
}

/// The whole session: the prologue, then every candidate's wake block.
pub open spec fn bring_up_plan(
    page_table_root: u32,
    entry_point: usize,
    trampoline_len: usize,
    first_id: u8,
    stacks: Seq<usize>,
) -> Seq<BootAction> {
    prologue_plan(page_table_root, entry_point, trampoline_len) + wake_plan(first_id, stacks)
}

} // verus!
