//! Bring-up sequencing for x86 application processors.
//!
//! A bootstrap processor wakes the other logical processors of the machine
//! through the architectural INIT–SIPI–SIPI protocol: it stages a low-memory
//! trampoline and boot parameters, then drives the local APIC through the wake
//! sequence for each candidate processor, interleaved with the required settle
//! delays.  This crate holds that sequencing logic as verified code: it
//! computes the exact ordered list of boot actions (parameter-cell writes,
//! trampoline install, interprocessor interrupts, delays) and proves the
//! ordering invariants the protocol depends on.  Performing the actions
//! against real hardware — raw physical-memory writes, APIC register access,
//! time-stamp-counter busy-waits — is left to the unverified caller.

pub mod actions;
pub mod delay;
pub mod layout;
pub mod sequencer;
