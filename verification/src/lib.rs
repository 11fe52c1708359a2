//! Interrupt- and fault-handling core of a small freestanding x86-64 kernel,
//! written as pure transitions over plain state so that every rule of the
//! kernel's reflexes is machine-checked.
//!
//! The crate never touches hardware. Each entry point takes the kernel state
//! it works on and hands back what the surrounding program has to push to a
//! port or to device memory.

use vstd::prelude::*;

pub use crate::panic::{
    alert_color, fail_test_panic_handler, failure_report, success_report, test_panic_handler,
    vga_panic_handler, Terminal, TestVerdict,
};

pub mod gdt;
pub mod interrupts;
pub mod keyboard;
pub mod panic;
pub mod qemu;
pub mod vga;

verus! {

/// One step of bringing the kernel up.
#[derive(Clone, Copy, Debug, PartialEq, Eq, Structural)]
pub enum BootStep {
    /// Load the segment table and the task state with the double fault
    /// stack.
    LoadSegments,
    /// Load the interrupt vector table.
    LoadVectors,
    /// Move the interrupt controllers to their vectors.
    InitializeControllers,
    /// Let the CPU take interrupts.
    EnableInterrupts,
}

/// The order of the boot steps. Interrupts are enabled last: by then the
/// stack for the double fault, every handler and the controllers are in
/// place.
pub open spec fn boot_order() -> Seq<BootStep> {
    seq![
        BootStep::LoadSegments,
        BootStep::LoadVectors,
        BootStep::InitializeControllers,
        BootStep::EnableInterrupts,
    ]
}

/// The steps that bring the kernel up, in the order in which they are to be
/// taken.
pub fn init() -> (steps: [BootStep; 4])
    ensures
        steps@ == boot_order(),
{
    [
        BootStep::LoadSegments,
        BootStep::LoadVectors,
        BootStep::InitializeControllers,
        BootStep::EnableInterrupts,
    ]
}

} // verus!
