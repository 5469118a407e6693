use x86_smpboot::actions::BootAction;
use x86_smpboot::actions::FIRST_AP_ID;
use x86_smpboot::actions::INIT_ASSERT_SETTLE_US;
use x86_smpboot::actions::INIT_DEASSERT_SETTLE_US;
use x86_smpboot::actions::PROLOGUE_LEN;
use x86_smpboot::actions::STARTUP_SETTLE_US;
use x86_smpboot::actions::WAKE_BLOCK_LEN;
use x86_smpboot::actions::WAKE_GRACE_US;
use x86_smpboot::actions::action_target_phys;
use x86_smpboot::layout::APIC_BASE_PHYS;
use x86_smpboot::layout::BOOT_CODE_PAGE;
use x86_smpboot::layout::BOOT_CODE_PHYS;
use x86_smpboot::layout::ENTRY_POINT_CELL;
use x86_smpboot::layout::PAGE_SIZE;
use x86_smpboot::layout::PAGE_TABLE_ROOT_CELL;
use x86_smpboot::layout::STACK_TOP_CELL;
use x86_smpboot::sequencer::ap_wake_actions;
use x86_smpboot::sequencer::bring_up_actions;
use x86_smpboot::sequencer::prologue_actions;

fn is_ipi(a: &BootAction) -> bool {
    matches!(
        a,
        BootAction::InitAssert { .. } | BootAction::InitDeassert | BootAction::Startup { .. }
    )
}

#[test]
fn prologue_exact() {
    let actions = prologue_actions(0xdead_b000, 0xffff_8000_0010_0000, 0x400);
    assert_eq!(
        actions,
        vec![
            BootAction::WritePageTableRoot { root: 0xdead_b000 },
            BootAction::WriteEntryPoint { entry: 0xffff_8000_0010_0000 },
            BootAction::InstallTrampoline { len: 0x400 },
        ]
    );
    assert_eq!(actions.len(), PROLOGUE_LEN);
}

#[test]
fn wake_block_exact() {
    let actions = ap_wake_actions(1, 0x8000);
    assert_eq!(
        actions,
        vec![
            BootAction::WriteStackTop { stack_top: 0x8000 },
            BootAction::InitAssert { apic_id: 1 },
            BootAction::DelayUs { us: INIT_ASSERT_SETTLE_US },
            BootAction::InitDeassert,
            BootAction::DelayUs { us: INIT_DEASSERT_SETTLE_US },
            BootAction::Startup { apic_id: 1, vector: BOOT_CODE_PAGE },
            BootAction::DelayUs { us: STARTUP_SETTLE_US },
            BootAction::Startup { apic_id: 1, vector: BOOT_CODE_PAGE },
            BootAction::DelayUs { us: STARTUP_SETTLE_US },
            BootAction::DelayUs { us: WAKE_GRACE_US },
        ]
    );
    assert_eq!(actions.len(), WAKE_BLOCK_LEN);
}

#[test]
fn wake_block_delays_meet_minimums() {
    assert!(INIT_ASSERT_SETTLE_US >= 200);
    assert!(INIT_DEASSERT_SETTLE_US >= 10_000);
    assert!(STARTUP_SETTLE_US >= 200);
    assert!(WAKE_GRACE_US >= 10_000);
}

#[test]
fn scenario_three_candidates() {
    // Candidate range 1..4: exactly three complete wake sequences, each with
    // two STARTUP sends, and exactly one trampoline install preceding every
    // interrupt.
    let stacks: Vec<usize> = vec![0x10_000, 0x20_000, 0x30_000];
    let plan = bring_up_actions(0x1000, 0x2000, 0x300, 1, &stacks);
    assert_eq!(plan.len(), 3 + 3 * 10);

    let installs: Vec<usize> = (0..plan.len())
        .filter(|&j| matches!(plan[j], BootAction::InstallTrampoline { .. }))
        .collect();
    assert_eq!(installs, vec![2]);

    let first_ipi: usize = (0..plan.len()).find(|&j| is_ipi(&plan[j])).unwrap();
    assert!(installs[0] < first_ipi);

    for id in 1u8..4u8 {
        let startups: Vec<usize> = (0..plan.len())
            .filter(|&j| matches!(plan[j], BootAction::Startup { apic_id, .. } if apic_id == id))
            .collect();
        assert_eq!(startups.len(), 2);
        let inits: Vec<usize> = (0..plan.len())
            .filter(|&j| matches!(plan[j], BootAction::InitAssert { apic_id } if apic_id == id))
            .collect();
        assert_eq!(inits.len(), 1);
        // The full sequence for this candidate: INIT-assert, then both
        // STARTUPs, in order.
        assert!(inits[0] < startups[0] && startups[0] < startups[1]);
    }

    let deasserts: usize = plan
        .iter()
        .filter(|a| matches!(a, BootAction::InitDeassert))
        .count();
    assert_eq!(deasserts, 3);
}

#[test]
fn scenario_distinct_stack_markers() {
    // A stack allocator handing out one marked address per candidate: the
    // recorded stack-cell writes carry each marker exactly once, in
    // ascending candidate order.
    let stacks: Vec<usize> = vec![0xaaa0_000, 0xbbb0_000, 0xccc0_000, 0xddd0_000];
    let plan = bring_up_actions(0x1000, 0x2000, 0x300, 1, &stacks);
    let recorded: Vec<usize> = plan
        .iter()
        .filter_map(|a| match a {
            BootAction::WriteStackTop { stack_top } => Some(*stack_top),
            _ => None,
        })
        .collect();
    assert_eq!(recorded, stacks);
    for marker in &stacks {
        let count: usize = recorded.iter().filter(|&&s| s == *marker).count();
        assert_eq!(count, 1);
    }
}

#[test]
fn scenario_translated_addresses() {
    // An address translator that offsets every physical address by a
    // constant: every access the plan's actions make goes through the
    // translated address, never a raw physical one.
    const OFFSET: usize = 0x1000_0000;
    let translate = |phys: usize| phys + OFFSET;
    let stacks: Vec<usize> = vec![0x10_000, 0x20_000];
    let plan = bring_up_actions(0x1000, 0x2000, 0x300, 1, &stacks);

    let raw: Vec<usize> = vec![
        PAGE_TABLE_ROOT_CELL,
        ENTRY_POINT_CELL,
        STACK_TOP_CELL,
        BOOT_CODE_PHYS,
        APIC_BASE_PHYS,
    ];
    let mut accessed: Vec<usize> = Vec::new();
    for a in &plan {
        if let Some(phys) = action_target_phys(a) {
            accessed.push(translate(phys));
        }
    }
    // Every action but the delays touches memory: 2 shared writes, 1
    // install, and per candidate 1 stack write + 4 interrupts.
    assert_eq!(accessed.len(), 3 + 2 * 5);
    for addr in &accessed {
        assert!(!raw.contains(addr));
        assert!(raw.contains(&(*addr - OFFSET)));
    }
}

#[test]
fn empty_range_prologue_only() {
    // A candidate range of size zero still installs the trampoline but
    // issues no interrupt and writes no stack cell.
    let stacks: Vec<usize> = Vec::new();
    let plan = bring_up_actions(0x1000, 0x2000, 0x300, FIRST_AP_ID, &stacks);
    assert_eq!(plan, prologue_actions(0x1000, 0x2000, 0x300));
    assert!(plan.iter().all(|a| !is_ipi(a)));
    assert!(plan
        .iter()
        .all(|a| !matches!(a, BootAction::WriteStackTop { .. })));
}

#[test]
fn full_range_ascending_ids() {
    // The reference configuration: candidates 1..64, one wake block each,
    // INIT-asserts in ascending ID order.
    let stacks: Vec<usize> = (0..63).map(|k: usize| 0x100_000 + k * PAGE_SIZE).collect();
    let plan = bring_up_actions(0x1000, 0x2000, 0x300, FIRST_AP_ID, &stacks);
    assert_eq!(plan.len(), 3 + 63 * 10);
    let ids: Vec<u8> = plan
        .iter()
        .filter_map(|a| match a {
            BootAction::InitAssert { apic_id } => Some(*apic_id),
            _ => None,
        })
        .collect();
    let expected: Vec<u8> = (1u8..64u8).collect();
    assert_eq!(ids, expected);
}

#[test]
fn action_targets() {
    assert_eq!(
        action_target_phys(&BootAction::WritePageTableRoot { root: 1 }),
        Some(PAGE_TABLE_ROOT_CELL)
    );
    assert_eq!(
        action_target_phys(&BootAction::WriteEntryPoint { entry: 2 }),
        Some(ENTRY_POINT_CELL)
    );
    assert_eq!(
        action_target_phys(&BootAction::WriteStackTop { stack_top: 3 }),
        Some(STACK_TOP_CELL)
    );
    assert_eq!(
        action_target_phys(&BootAction::InstallTrampoline { len: 4 }),
        Some(BOOT_CODE_PHYS)
    );
    assert_eq!(
        action_target_phys(&BootAction::InitAssert { apic_id: 1 }),
        Some(APIC_BASE_PHYS)
    );
    assert_eq!(action_target_phys(&BootAction::InitDeassert), Some(APIC_BASE_PHYS));
    assert_eq!(
        action_target_phys(&BootAction::Startup { apic_id: 1, vector: BOOT_CODE_PAGE }),
        Some(APIC_BASE_PHYS)
    );
    assert_eq!(action_target_phys(&BootAction::DelayUs { us: 200 }), None);
}

#[test]
fn boot_vector_addresses_trampoline_page() {
    assert_eq!(BOOT_CODE_PAGE as usize * PAGE_SIZE, BOOT_CODE_PHYS);
}
