use vstd::prelude::*;

use crate::layout::{BDOS_BASE_ADDRESS, BIOS_BASE_ADDRESS, BIOS_ENTRY_COUNT};

verus! {

/// A condition that stops the machine abnormally.
#[derive(Clone, Copy, Debug, PartialEq, Eq, Structural)]
pub enum Fault {
    /// The program executed a halt instruction.
    HaltInstruction,
    /// The program ran into the placeholder bytes just before the BDOS entry.
    RunawayIntoBdos,
}

/// What the control loop does after one instruction has been executed.
#[derive(Clone, Copy, Debug, PartialEq, Eq, Structural)]
pub enum Action {
    /// Stop with a fatal diagnostic.
    Fatal(Fault),
    /// Serve the BIOS entry at this index; the handler tells whether the
    /// program has exited.
    CallBios(u16),
    /// Serve a BDOS call and return to the caller.
    CallBdos,
    /// Execute the next instruction.
    Continue,
}

/// The BIOS entry that `pc` is on, if any: entries are three bytes apart
/// from the BIOS base.
pub open spec fn bios_entry(pc: u16) -> Option<u16> {
    if BIOS_BASE_ADDRESS <= pc < BIOS_BASE_ADDRESS + 3 * BIOS_ENTRY_COUNT
        && (pc - BIOS_BASE_ADDRESS) % 3 == 0 {
        Some(((pc - BIOS_BASE_ADDRESS) / 3) as u16)
    } else {
        None
    }
}

/// The decision after a step: a halt is fatal; a BIOS entry or the BDOS
/// entry is served; the byte just before the BDOS entry is fatal; anything
/// else goes on.
pub open spec fn next_action_spec(halted: bool, pc: u16) -> Action {
    if halted {
        Action::Fatal(Fault::HaltInstruction)
    } else if bios_entry(pc).is_some() {
        Action::CallBios(bios_entry(pc).unwrap())
    } else if pc == BDOS_BASE_ADDRESS {
        Action::CallBdos
    } else if pc == BDOS_BASE_ADDRESS - 1 {
        Action::Fatal(Fault::RunawayIntoBdos)
    } else {
        Action::Continue
    }
}

/// Decides what follows an executed instruction, from the halted flag and
/// the program counter.
pub fn next_action(halted: bool, pc: u16) -> (a: Action)
    ensures
        a == next_action_spec(halted, pc),
{
    if halted {
        Action::Fatal(Fault::HaltInstruction)
    } else if BIOS_BASE_ADDRESS <= pc && pc < BIOS_BASE_ADDRESS + 3 * BIOS_ENTRY_COUNT
        && (pc - BIOS_BASE_ADDRESS) % 3 == 0 {
        Action::CallBios((pc - BIOS_BASE_ADDRESS) / 3)
    } else if pc == BDOS_BASE_ADDRESS {
        Action::CallBdos
    } else if pc == BDOS_BASE_ADDRESS - 1 {
        Action::Fatal(Fault::RunawayIntoBdos)
    } else {
        Action::Continue
    }
}

/// Execution that reaches the byte before the BDOS entry without a halt is
/// always stopped as a runaway program.
pub proof fn lemma_runaway_guard(pc: u16)
    requires
        pc == BDOS_BASE_ADDRESS - 1,
    ensures
        next_action_spec(false, pc) == Action::Fatal(Fault::RunawayIntoBdos),
{
}

} // verus!
