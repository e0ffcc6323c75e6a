use vstd::prelude::*;

use crate::registers::{cell8, cell16, pair_value, with_pair, Reg16, Reg8, Registers};

verus! {

/// Size of the guest address space.
pub const MEM_SIZE: usize = 65536;

/// An address reduced modulo 65536.
pub open spec fn wrap16(x: int) -> u16 {
    (x % 65536) as u16
}

/// The register that an 8-bit access reaches once the addressing context
/// `index` is applied: H and L go to the halves of IX or IY when one of them
/// is selected; every other name is unaffected.
pub open spec fn translate(index: Reg16, reg: Reg8) -> Reg8 {
    match index {
        Reg16::IX => if reg == Reg8::H { Reg8::IXH } else if reg == Reg8::L { Reg8::IXL } else { reg },
        Reg16::IY => if reg == Reg8::H { Reg8::IYH } else if reg == Reg8::L { Reg8::IYL } else { reg },
        _ => reg,
    }
}

/// Port handlers, supplied by the host. They see the whole execution state
/// while they serve an access.
pub trait Io {
    /// The handler may answer `r` when port `address` is read in `state`.
    spec fn answers(&self, state: State, address: u16, r: u8) -> bool;

    /// The handler has taken `value` written to port `address` in `state`.
    spec fn takes(&self, state: State, address: u16, value: u8) -> bool;

    fn port_in(&self, state: &State, address: u16) -> (r: u8)
        ensures
            self.answers(*state, address, r),
    ;

    fn port_out(&self, state: &State, address: u16, value: u8)
        ensures
            self.takes(*state, address, value),
    ;
}

/// The execution state: register file, 64 KiB of memory and the addressing
/// context (which pair the generic HL stands for, and the displacement used
/// with an index register).
pub struct State {
    pub reg: Registers,
    pub mem: Vec<u8>,
    pub cycles: u64,
    pub halted: bool,
    pub index: Reg16,
    pub displacement: i8,
}

impl State {
    pub open spec fn wf(&self) -> bool {
        self.reg.wf() && self.mem@.len() == MEM_SIZE
    }

    /// Value of a register pair, as stored.
    pub open spec fn pair(&self, rr: Reg16) -> u16 {
        pair_value(self.reg.cells(), rr)
    }

    /// Value of an 8-bit register, as stored.
    pub open spec fn cell(&self, r: Reg8) -> u8 {
        self.reg.cells()[cell8(r)]
    }

    pub open spec fn pc_spec(&self) -> u16 {
        self.reg.pc_spec()
    }

    /// Address of the pseudo-register `(HL)`, `(IX+d)` or `(IY+d)`.
    pub open spec fn index_address_spec(&self) -> u16 {
        wrap16(self.pair(self.index) as int + self.displacement as int)
    }

    /// Memory after a 16-bit value has been pushed onto the stack.
    pub open spec fn pushed_mem(mem: Seq<u8>, sp: u16, value: u16) -> Seq<u8> {
        mem.update(wrap16(sp - 1) as int, (value / 256) as u8).update(
            wrap16(sp - 2) as int,
            (value % 256) as u8,
        )
    }

    /// The parts of the state besides registers and memory are equal.
    pub open spec fn same_context(&self, other: State) -> bool {
        &&& self.index == other.index
        &&& self.displacement == other.displacement
        &&& self.cycles == other.cycles
        &&& self.halted == other.halted
    }

    /// `s1` is `s0` after pushing `value`: the high byte at SP-1, the low
    /// byte at SP-2, SP lowered by two, everything else kept.
    pub open spec fn pushed(s0: State, value: u16, s1: State) -> bool {
        &&& s1.wf()
        &&& s1.mem@ == Self::pushed_mem(s0.mem@, s0.pair(Reg16::SP), value)
        &&& s1.reg.cells() == with_pair(s0.reg.cells(), Reg16::SP, wrap16(s0.pair(Reg16::SP) - 2))
        &&& s1.pc_spec() == s0.pc_spec()
        &&& s1.same_context(s0)
    }

    /// The 16-bit value on top of the stack: low byte at `sp`, high byte above.
    pub open spec fn stack_top(mem: Seq<u8>, sp: u16) -> int {
        mem[sp as int] as int + 256 * mem[wrap16(sp + 1) as int] as int
    }

    /// `s1` is `s0` after popping `v`: `v` is the value on top of the stack,
    /// SP is raised by two, everything else kept.
    pub open spec fn popped(s0: State, s1: State, v: u16) -> bool {
        &&& s1.wf()
        &&& v == Self::stack_top(s0.mem@, s0.pair(Reg16::SP))
        &&& s1.reg.cells() == with_pair(s0.reg.cells(), Reg16::SP, wrap16(s0.pair(Reg16::SP) + 2))
        &&& s1.mem@ == s0.mem@
        &&& s1.pc_spec() == s0.pc_spec()
        &&& s1.same_context(s0)
    }

    /// A state with zeroed memory, registers after reset, and no index
    /// register selected.
    pub fn new() -> (s: State)
        ensures
            s.wf(),
            s.mem@ == Seq::new(MEM_SIZE as nat, |i: int| 0u8),
            s.pc_spec() == 0,
            s.pair(Reg16::AF) == 0xFFFF,
            s.pair(Reg16::SP) == 0xFFFF,
            forall|i: int| 2 <= i < 14 ==> s.reg.cells()[i] == 0,
            s.cycles == 0,
            !s.halted,
            s.index == Reg16::HL,
            s.displacement == 0,
    {
        let mut mem: Vec<u8> = Vec::new();
        let mut i: usize = 0;
        while i < MEM_SIZE
            invariant
                i <= MEM_SIZE,
                mem@.len() == i,
                forall|j: int| 0 <= j < i ==> mem@[j] == 0u8,
            decreases MEM_SIZE - i,
        {
            mem.push(0);
            i = i + 1;
        }
        assert(mem@ == Seq::new(MEM_SIZE as nat, |i: int| 0u8));
        State {
            reg: Registers::new(),
            mem,
            cycles: 0,
            halted: false,
            index: Reg16::HL,
            displacement: 0,
        }
    }

    /// The byte at `address`.
    pub fn peek(&self, address: u16) -> (v: u8)
        requires
            self.wf(),
        ensures
            v == self.mem@[address as int],
    {
        self.mem[address as usize]
    }

    /// Writes the byte at `address`; nothing else changes.
    pub fn poke(&mut self, address: u16, value: u8)
        requires
            old(self).wf(),
        ensures
            final(self).wf(),
            final(self).mem@ == old(self).mem@.update(address as int, value),
            final(self).reg == old(self).reg,
            final(self).index == old(self).index,
            final(self).displacement == old(self).displacement,
            final(self).cycles == old(self).cycles,
            final(self).halted == old(self).halted,
    {
        self.mem.set(address as usize, value);
    }

    /// The byte at the program counter.
    pub fn peek_pc(&self) -> (v: u8)
        requires
            self.wf(),
        ensures
            v == self.mem@[self.pc_spec() as int],
    {
        let pc = self.reg.pc();
        self.peek(pc)
    }

    /// Fetches the byte at the program counter and advances the counter by
    /// one, from 0xFFFF to 0x0000.
    pub fn advance_pc(&mut self) -> (v: u8)
        requires
            old(self).wf(),
        ensures
            final(self).wf(),
            v == old(self).mem@[old(self).pc_spec() as int],
            final(self).pc_spec() == wrap16(old(self).pc_spec() + 1),
            final(self).mem@ == old(self).mem@,
            final(self).reg.cells() == old(self).reg.cells(),
            final(self).index == old(self).index,
            final(self).displacement == old(self).displacement,
    {
        let pc = self.reg.pc();
        let value = self.peek(pc);
        self.reg.set_pc(pc.wrapping_add(1));
        value
    }

    /// The little-endian 16-bit value at the program counter.
    pub fn peek16_pc(&self) -> (v: u16)
        requires
            self.wf(),
        ensures
            v == self.mem@[self.pc_spec() as int] as int + 256 * self.mem@[wrap16(
                self.pc_spec() + 1,
            ) as int] as int,
    {
        let pc = self.reg.pc();
        self.peek(pc) as u16 + (self.peek(pc.wrapping_add(1)) as u16) * 256
    }

    /// Fetches a little-endian 16-bit immediate and advances the counter by two.
    pub fn advance_immediate16(&mut self) -> (v: u16)
        requires
            old(self).wf(),
        ensures
            final(self).wf(),
            v == old(self).mem@[old(self).pc_spec() as int] as int + 256 * old(self).mem@[wrap16(
                old(self).pc_spec() + 1,
            ) as int] as int,
            final(self).pc_spec() == wrap16(old(self).pc_spec() + 2),
            final(self).mem@ == old(self).mem@,
            final(self).reg.cells() == old(self).reg.cells(),
            final(self).index == old(self).index,
            final(self).displacement == old(self).displacement,
    {
        let l = self.advance_pc() as u16;
        let h = self.advance_pc() as u16;
        l + h * 256
    }

    /// Pushes a 16-bit value: the high byte goes to SP-1, the low byte to
    /// SP-2, and SP becomes SP-2 (all modulo 65536).
    pub fn push(&mut self, value: u16)
        requires
            old(self).wf(),
        ensures
            Self::pushed(*old(self), value, *final(self)),
    {
        let mut sp = self.reg.get16(Reg16::SP);
        sp = sp.wrapping_sub(1);
        self.poke(sp, (value / 256) as u8);
        sp = sp.wrapping_sub(1);
        self.poke(sp, (value % 256) as u8);
        self.reg.set16(Reg16::SP, sp);
    }

    /// Pops a 16-bit value: the low byte from SP, the high byte from SP+1,
    /// and SP becomes SP+2 (all modulo 65536).
    pub fn pop(&mut self) -> (v: u16)
        requires
            old(self).wf(),
        ensures
            Self::popped(*old(self), *final(self), v),
    {
        let mut sp = self.reg.get16(Reg16::SP);
        let l = self.peek(sp) as u16;
        sp = sp.wrapping_add(1);
        let h = self.peek(sp) as u16;
        sp = sp.wrapping_add(1);
        self.reg.set16(Reg16::SP, sp);
        l + h * 256
    }

    /// Value of the pair that the generic HL currently stands for.
    pub fn get_index_value(&self) -> (v: u16)
        requires
            self.wf(),
        ensures
            v == self.pair(self.index),
    {
        self.reg.get16(self.index)
    }

    /// Address of the pseudo-register: the selected pair plus the
    /// displacement, modulo 65536.
    pub fn get_index_address(&self) -> (a: u16)
        requires
            self.wf(),
        ensures
            a == self.index_address_spec(),
    {
        let address = self.reg.get16(self.index);
        let t: i32 = address as i32 + self.displacement as i32;
        if t < 0 {
            (t + 65536) as u16
        } else if t >= 65536 {
            (t - 65536) as u16
        } else {
            t as u16
        }
    }

    /// The register that an 8-bit access to `reg` reaches under the current
    /// addressing context.
    pub fn translate_reg(&self, reg: Reg8) -> (r: Reg8)
        ensures
            r == translate(self.index, reg),
    {
        match self.index {
            Reg16::IX => match reg {
                Reg8::H => Reg8::IXH,
                Reg8::L => Reg8::IXL,
                _ => reg,
            },
            Reg16::IY => match reg {
                Reg8::H => Reg8::IYH,
                Reg8::L => Reg8::IYL,
                _ => reg,
            },
            _ => reg,
        }
    }

    /// Reads an 8-bit register under the addressing context; `_HL` reads
    /// memory at the pseudo-register's address.
    pub fn get_reg(&self, reg: Reg8) -> (v: u8)
        requires
            self.wf(),
        ensures
            reg == Reg8::_HL ==> v == self.mem@[self.index_address_spec() as int],
            reg != Reg8::_HL ==> v == self.cell(translate(self.index, reg)),
    {
        if reg == Reg8::_HL {
            self.peek(self.get_index_address())
        } else {
            self.reg.get8(self.translate_reg(reg))
        }
    }

    /// Reads a pair; HL stands for the pair that the context selects.
    pub fn get_reg16(&self, rr: Reg16) -> (v: u16)
        requires
            self.wf(),
        ensures
            v == self.pair(if rr == Reg16::HL { self.index } else { rr }),
    {
        if rr == Reg16::HL {
            self.reg.get16(self.index)
        } else {
            self.reg.get16(rr)
        }
    }

    /// Writes an 8-bit register under the addressing context; `_HL` writes
    /// memory at the pseudo-register's address.
    pub fn set_reg(&mut self, reg: Reg8, value: u8)
        requires
            old(self).wf(),
        ensures
            final(self).wf(),
            reg == Reg8::_HL ==> final(self).mem@ == old(self).mem@.update(
                old(self).index_address_spec() as int,
                value,
            ) && final(self).reg == old(self).reg,
            reg != Reg8::_HL ==> final(self).mem@ == old(self).mem@
                && final(self).reg.cells() == old(self).reg.cells().update(
                cell8(translate(old(self).index, reg)),
                value,
            ) && final(self).pc_spec() == old(self).pc_spec(),
            final(self).index == old(self).index,
            final(self).displacement == old(self).displacement,
    {
        if reg == Reg8::_HL {
            let a = self.get_index_address();
            self.poke(a, value);
        } else {
            let r = self.translate_reg(reg);
            self.reg.set8(r, value);
        }
    }

    /// Writes a pair; HL stands for the pair that the context selects.
    pub fn set_reg16(&mut self, rr: Reg16, value: u16)
        requires
            old(self).wf(),
        ensures
            final(self).wf(),
            final(self).reg.cells() == with_pair(
                old(self).reg.cells(),
                if rr == Reg16::HL { old(self).index } else { rr },
                value,
            ),
            final(self).pc_spec() == old(self).pc_spec(),
            final(self).mem@ == old(self).mem@,
            final(self).index == old(self).index,
            final(self).displacement == old(self).displacement,
    {
        if rr == Reg16::HL {
            self.reg.set16(self.index, value);
        } else {
            self.reg.set16(rr, value);
        }
    }

    /// Reads a port through the host's handlers, which see this state.
    pub fn port_in<T: Io>(&self, io: &T, address: u16) -> (r: u8)
        ensures
            io.answers(*self, address, r),
    {
        io.port_in(self, address)
    }

    /// Writes a port through the host's handlers, which see this state.
    pub fn port_out<T: Io>(&self, io: &T, address: u16, value: u8)
        ensures
            io.takes(*self, address, value),
    {
        io.port_out(self, address, value);
    }
}

} // verus!
