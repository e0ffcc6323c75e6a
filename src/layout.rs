use vstd::prelude::*;

verus! {

/// Where the command processor is loaded.
pub const CCP_BASE_ADDRESS: u16 = 0xE400;
/// Where a transient program is loaded and started.
pub const TPA_BASE_ADDRESS: u16 = 0x0100;
/// Top of the stack that a transient program starts with.
pub const TPA_STACK_ADDRESS: u16 = 0xE400;
/// The BDOS entry address; reaching it is a system call.
pub const BDOS_BASE_ADDRESS: u16 = 0xEC00;
/// The first BIOS entry.
pub const BIOS_BASE_ADDRESS: u16 = 0xFA00;
/// Number of BIOS entries, three bytes each.
pub const BIOS_ENTRY_COUNT: u16 = 17;
/// The buffer holding the command tail.
pub const SYSTEM_PARAMS_ADDRESS: u16 = 0x0080;
/// The default file control blocks.
pub const FCB1_ADDRESS: u16 = 0x005C;
pub const FCB2_ADDRESS: u16 = 0x006C;
/// Longest command tail kept in the parameter buffer.
pub const MAX_TAIL_LEN: usize = 126;

} // verus!
