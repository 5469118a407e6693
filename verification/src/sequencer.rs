//! The bootstrap sequencer: executable plan builders and ordering laws.
//!
//! The builders return the boot actions of a session — or of one candidate's
//! wake block — as a vector whose contents equal the plan specifications
//! exactly.  The hardware-facing caller performs the actions in order; the
//! lemmas below prove the ordering invariants the protocol depends on, for
//! every configuration.

use vstd::prelude::*;
use vstd::arithmetic::div_mod::lemma_fundamental_div_mod;
use vstd::arithmetic::div_mod::lemma_fundamental_div_mod_converse;
use vstd::arithmetic::div_mod::lemma_mod_pos_bound;
use crate::actions::BootAction;
use crate::actions::INIT_ASSERT_SETTLE_US;
use crate::actions::INIT_DEASSERT_SETTLE_US;
use crate::actions::STARTUP_SETTLE_US;
use crate::actions::WAKE_GRACE_US;
use crate::actions::bring_up_plan;
use crate::actions::is_entry_point_write;
use crate::actions::is_install;
use crate::actions::is_ipi;
use crate::actions::is_page_table_root_write;
use crate::actions::is_stack_write;
use crate::actions::is_startup_for;
use crate::actions::prologue_plan;
use crate::actions::wake_block;
use crate::actions::wake_plan;
use crate::layout::BOOT_CODE_PAGE;

verus! {

/// Builds the session prologue: the two shared parameter-cell writes, then
/// the trampoline install.
pub fn prologue_actions(
    page_table_root: u32,
    entry_point: usize,
    trampoline_len: usize,
) -> (actions: Vec<BootAction>)
    ensures
        actions@ == prologue_plan(page_table_root, entry_point, trampoline_len),
{
    let mut actions: Vec<BootAction> = Vec::new();
    actions.push(BootAction::WritePageTableRoot { root: page_table_root });
    actions.push(BootAction::WriteEntryPoint { entry: entry_point });
    actions.push(BootAction::InstallTrampoline { len: trampoline_len });
    proof {
        assert(actions@ =~= prologue_plan(page_table_root, entry_point, trampoline_len));
    }
    actions
}

/// Builds one candidate's wake block: stack-top write, then the INIT–SIPI–
/// SIPI interrupts in their fixed order, each followed by its settle delay.
pub fn ap_wake_actions(apic_id: u8, stack_top: usize) -> (actions: Vec<BootAction>)
    ensures
        actions@ == wake_block(apic_id, stack_top),
{
    let mut actions: Vec<BootAction> = Vec::new();
    actions.push(BootAction::WriteStackTop { stack_top });
    actions.push(BootAction::InitAssert { apic_id });
    actions.push(BootAction::DelayUs { us: INIT_ASSERT_SETTLE_US });
    actions.push(BootAction::InitDeassert);
    actions.push(BootAction::DelayUs { us: INIT_DEASSERT_SETTLE_US });
    actions.push(BootAction::Startup { apic_id, vector: BOOT_CODE_PAGE });
    actions.push(BootAction::DelayUs { us: STARTUP_SETTLE_US });
    actions.push(BootAction::Startup { apic_id, vector: BOOT_CODE_PAGE });
    actions.push(BootAction::DelayUs { us: STARTUP_SETTLE_US });
    actions.push(BootAction::DelayUs { us: WAKE_GRACE_US });
    proof {
        assert(actions@ =~= wake_block(apic_id, stack_top));
    }
    actions
}

/// Position `10 k + o` of the wake plan holds element `o` of candidate `k`'s
/// wake block.
pub proof fn lemma_wake_plan_index(first_id: u8, stacks: Seq<usize>, k: int, o: int)
    requires
        0 <= k < stacks.len(),
        0 <= o < 10,
    ensures
        wake_plan(first_id, stacks).len() == 10 * stacks.len(),
        wake_plan(first_id, stacks)[10 * k + o] == wake_block(
            (first_id + k) as u8,
            stacks[k],
        )[o],
{
    lemma_fundamental_div_mod_converse(10 * k + o, 10, k, o);
}

/// Extending the candidate list by one appends exactly that candidate's wake
/// block to the wake plan.
proof fn lemma_wake_plan_snoc(first_id: u8, stacks: Seq<usize>, k: int)
    requires
        0 <= k < stacks.len(),
    ensures
        wake_plan(first_id, stacks.take(k + 1)) =~= wake_plan(first_id, stacks.take(k))
            + wake_block((first_id + k) as u8, stacks[k]),
{
    let long = wake_plan(first_id, stacks.take(k + 1));
    let short = wake_plan(first_id, stacks.take(k)) + wake_block(
        (first_id + k) as u8,
        stacks[k],
    );
    assert(long.len() == short.len());
    assert forall|j: int| 0 <= j < long.len() implies long[j] == short[j] by {
        lemma_fundamental_div_mod(j, 10);
        lemma_mod_pos_bound(j, 10);
        let q = j / 10;
        let o = j % 10;
        assert(0 <= q < k + 1);
        if q < k {
            assert(short[j] == wake_plan(first_id, stacks.take(k))[j]);
        } else {
            assert(j - 10 * k == o);
            assert(short[j] == wake_block((first_id + k) as u8, stacks[k])[o]);
        }
    }
}

/// Builds the whole session's plan: the prologue, then — candidate by
/// candidate, in ascending ID order — the wake block of `first_id + k` with
/// stack top `stacks[k]`.
pub fn bring_up_actions(
    page_table_root: u32,
    entry_point: usize,
    trampoline_len: usize,
    first_id: u8,
    stacks: &Vec<usize>,
) -> (actions: Vec<BootAction>)
    requires
        first_id + stacks@.len() <= 256,
    ensures
        actions@ == bring_up_plan(
            page_table_root,
            entry_point,
            trampoline_len,
            first_id,
            stacks@,
        ),
{
    let mut actions = prologue_actions(page_table_root, entry_point, trampoline_len);
    proof {
        assert(stacks@.take(0) =~= Seq::<usize>::empty());
        assert(wake_plan(first_id, stacks@.take(0)) =~= Seq::<BootAction>::empty());
        assert(actions@ =~= prologue_plan(page_table_root, entry_point, trampoline_len)
            + wake_plan(first_id, stacks@.take(0)));
    }
    let mut i: usize = 0;
    while i < stacks.len()
        invariant
            i <= stacks@.len(),
            first_id + stacks@.len() <= 256,
            actions@ == prologue_plan(page_table_root, entry_point, trampoline_len)
                + wake_plan(first_id, stacks@.take(i as int)),
        decreases stacks@.len() - i,
    {
        let apic_id: u8 = first_id + (i as u8);
        let block = ap_wake_actions(apic_id, stacks[i]);
        let ghost before = actions@;
        let mut j: usize = 0;
        while j < block.len()
            invariant
                j <= block@.len(),
                actions@ == before + block@.take(j as int),
            decreases block@.len() - j,
        {
            actions.push(block[j]);
            proof {
                assert(actions@ =~= before + block@.take(j as int + 1));
            }
            j = j + 1;
        }
        proof {
            assert(block@.take(block@.len() as int) =~= block@);
            lemma_wake_plan_snoc(first_id, stacks@, i as int);
            assert(actions@ =~= prologue_plan(page_table_root, entry_point, trampoline_len)
                + wake_plan(first_id, stacks@.take(i as int + 1)));
        }
        i = i + 1;
    }
    proof {
        assert(stacks@.take(stacks@.len() as int) =~= stacks@);
    }
    actions
}

/// Reads one position of the wake plan back as a block element: position
/// `j` belongs to candidate `j / 10` and holds element `j % 10` of that
/// candidate's wake block.
proof fn lemma_wake_plan_element(first_id: u8, stacks: Seq<usize>, j: int)
    requires
        0 <= j < 10 * stacks.len(),
    ensures
        ({
            let q = j / 10;
            let o = j % 10;
            &&& 0 <= q < stacks.len()
            &&& 0 <= o < 10
            &&& j == 10 * q + o
            &&& wake_plan(first_id, stacks)[j] == wake_block((first_id + q) as u8, stacks[q])[o]
        }),
{
    lemma_fundamental_div_mod(j, 10);
    lemma_mod_pos_bound(j, 10);
}

/// For every candidate, the stack-cell write happens-before the STARTUP
/// interrupts aimed at it, and the stack cell is left alone until the
/// candidate's whole wake block — trailing grace delay included — is over:
/// the candidate's stack write heads its block, both of its STARTUP
/// interrupts follow it within the block, no STARTUP elsewhere in the plan
/// targets it, and no other stack write falls inside its block.
pub proof fn lemma_stack_write_before_startup(
    page_table_root: u32,
    entry_point: usize,
    trampoline_len: usize,
    first_id: u8,
    stacks: Seq<usize>,
    k: int,
)
    requires
        0 <= k < stacks.len(),
        first_id + stacks.len() <= 256,
    ensures
        ({
            let plan = bring_up_plan(page_table_root, entry_point, trampoline_len, first_id, stacks);
            let base = 3 + 10 * k;
            let id = (first_id + k) as u8;
            &&& plan.len() == 3 + 10 * stacks.len()
            &&& plan[base] == (BootAction::WriteStackTop { stack_top: stacks[k] })
            &&& plan[base + 5] == (BootAction::Startup { apic_id: id, vector: BOOT_CODE_PAGE })
            &&& plan[base + 7] == (BootAction::Startup { apic_id: id, vector: BOOT_CODE_PAGE })
            &&& forall|j: int| base < j < base + 10 ==> !is_stack_write(#[trigger] plan[j])
            &&& forall|j: int|
                0 <= j < plan.len() && is_startup_for(#[trigger] plan[j], id) ==> j == base + 5
                    || j == base + 7
        }),
{
    let plan = bring_up_plan(page_table_root, entry_point, trampoline_len, first_id, stacks);
    let base = 3 + 10 * k;
    let id = (first_id + k) as u8;
    lemma_wake_plan_index(first_id, stacks, k, 0);
    lemma_wake_plan_index(first_id, stacks, k, 5);
    lemma_wake_plan_index(first_id, stacks, k, 7);
    assert forall|j: int| base < j < base + 10 implies !is_stack_write(#[trigger] plan[j]) by {
        lemma_wake_plan_element(first_id, stacks, j - 3);
    }
    assert forall|j: int|
        0 <= j < plan.len() && is_startup_for(#[trigger] plan[j], id) implies j == base + 5 || j
        == base + 7 by {
        if j >= 3 {
            lemma_wake_plan_element(first_id, stacks, j - 3);
        }
    }
}

/// Every stack-cell write of a session belongs to exactly one candidate: it
/// stands at the head of that candidate's wake block and carries that
/// candidate's own stack top, so the cell sees each candidate's marker
/// exactly once, in ascending candidate order.
pub proof fn lemma_stack_writes_by_block(
    page_table_root: u32,
    entry_point: usize,
    trampoline_len: usize,
    first_id: u8,
    stacks: Seq<usize>,
)
    ensures
        ({
            let plan = bring_up_plan(page_table_root, entry_point, trampoline_len, first_id, stacks);
            forall|j: int|
                0 <= j < plan.len() && is_stack_write(#[trigger] plan[j]) ==> 3 <= j && (j - 3) % 10
                    == 0 && plan[j] == (BootAction::WriteStackTop {
                    stack_top: stacks[(j - 3) / 10],
                })
        }),
{
    let plan = bring_up_plan(page_table_root, entry_point, trampoline_len, first_id, stacks);
    assert forall|j: int|
        0 <= j < plan.len() && is_stack_write(#[trigger] plan[j]) implies 3 <= j && (j - 3) % 10
        == 0 && plan[j] == (BootAction::WriteStackTop { stack_top: stacks[(j - 3) / 10] }) by {
        if j >= 3 {
            lemma_wake_plan_element(first_id, stacks, j - 3);
        }
    }
}

/// The trampoline is installed exactly once per session, strictly before
/// the first interprocessor interrupt of any kind.
pub proof fn lemma_trampoline_once_before_ipis(
    page_table_root: u32,
    entry_point: usize,
    trampoline_len: usize,
    first_id: u8,
    stacks: Seq<usize>,
)
    ensures
        ({
            let plan = bring_up_plan(page_table_root, entry_point, trampoline_len, first_id, stacks);
            &&& plan.len() == 3 + 10 * stacks.len()
            &&& plan[2] == (BootAction::InstallTrampoline { len: trampoline_len })
            &&& forall|j: int| 0 <= j < plan.len() && is_install(#[trigger] plan[j]) ==> j == 2
            &&& forall|j: int| 0 <= j < plan.len() && is_ipi(#[trigger] plan[j]) ==> j > 2
        }),
{
    let plan = bring_up_plan(page_table_root, entry_point, trampoline_len, first_id, stacks);
    assert forall|j: int| 0 <= j < plan.len() && is_install(#[trigger] plan[j]) implies j == 2 by {
        if j >= 3 {
            lemma_wake_plan_element(first_id, stacks, j - 3);
        }
    }
    assert forall|j: int| 0 <= j < plan.len() && is_ipi(#[trigger] plan[j]) implies j > 2 by {
        if j >= 3 {
            lemma_wake_plan_element(first_id, stacks, j - 3);
        }
    }
}

/// The shared parameter cells — page-table root and entry point — are each
/// written exactly once per session, at its head, before the trampoline
/// install and before any candidate's wake block.
pub proof fn lemma_shared_cells_written_once(
    page_table_root: u32,
    entry_point: usize,
    trampoline_len: usize,
    first_id: u8,
    stacks: Seq<usize>,
)
    ensures
        ({
            let plan = bring_up_plan(page_table_root, entry_point, trampoline_len, first_id, stacks);
            &&& plan[0] == (BootAction::WritePageTableRoot { root: page_table_root })
            &&& plan[1] == (BootAction::WriteEntryPoint { entry: entry_point })
            &&& forall|j: int|
                0 <= j < plan.len() && is_page_table_root_write(#[trigger] plan[j]) ==> j == 0
            &&& forall|j: int|
                0 <= j < plan.len() && is_entry_point_write(#[trigger] plan[j]) ==> j == 1
        }),
{
    let plan = bring_up_plan(page_table_root, entry_point, trampoline_len, first_id, stacks);
    assert forall|j: int|
        0 <= j < plan.len() && is_page_table_root_write(#[trigger] plan[j]) implies j == 0 by {
        if j >= 3 {
            lemma_wake_plan_element(first_id, stacks, j - 3);
        }
    }
    assert forall|j: int|
        0 <= j < plan.len() && is_entry_point_write(#[trigger] plan[j]) implies j == 1 by {
        if j >= 3 {
            lemma_wake_plan_element(first_id, stacks, j - 3);
        }
    }
}

/// One candidate's wake block runs the protocol in the fixed order
/// INIT-assert → INIT-deassert → STARTUP → STARTUP, no interrupt skipped,
/// repeated or reordered, each followed by its settle delay, with the
/// stack-top write before all of them and the grace wait closing the block.
pub proof fn lemma_wake_block_order(apic_id: u8, stack_top: usize)
    ensures
        ({
            let block = wake_block(apic_id, stack_top);
            &&& block.len() == 10
            &&& block[0] == (BootAction::WriteStackTop { stack_top })
            &&& block[1] == (BootAction::InitAssert { apic_id })
            &&& block[2] == (BootAction::DelayUs { us: INIT_ASSERT_SETTLE_US })
            &&& block[3] == BootAction::InitDeassert
            &&& block[4] == (BootAction::DelayUs { us: INIT_DEASSERT_SETTLE_US })
            &&& block[5] == (BootAction::Startup { apic_id, vector: BOOT_CODE_PAGE })
            &&& block[6] == (BootAction::DelayUs { us: STARTUP_SETTLE_US })
            &&& block[7] == (BootAction::Startup { apic_id, vector: BOOT_CODE_PAGE })
            &&& block[8] == (BootAction::DelayUs { us: STARTUP_SETTLE_US })
            &&& block[9] == (BootAction::DelayUs { us: WAKE_GRACE_US })
            &&& forall|o: int|
                0 <= o < 10 && is_ipi(#[trigger] block[o]) ==> o == 1 || o == 3 || o == 5 || o == 7
        }),
{
}

/// A session with an empty candidate range still writes the shared cells
/// and installs the trampoline, but issues no interrupt and writes no stack
/// cell: its plan is exactly the prologue.
pub proof fn lemma_empty_candidate_range(
    page_table_root: u32,
    entry_point: usize,
    trampoline_len: usize,
    first_id: u8,
)
    ensures
        bring_up_plan(page_table_root, entry_point, trampoline_len, first_id, Seq::empty())
            == prologue_plan(page_table_root, entry_point, trampoline_len),
        forall|j: int|
            0 <= j < prologue_plan(page_table_root, entry_point, trampoline_len).len() ==> !is_ipi(
                #[trigger] prologue_plan(page_table_root, entry_point, trampoline_len)[j],
            ) && !is_stack_write(prologue_plan(page_table_root, entry_point, trampoline_len)[j]),
{
    assert(wake_plan(first_id, Seq::<usize>::empty()) =~= Seq::<BootAction>::empty());
    assert(bring_up_plan(page_table_root, entry_point, trampoline_len, first_id, Seq::empty())
        =~= prologue_plan(page_table_root, entry_point, trampoline_len));
}

} // verus!
