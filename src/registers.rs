use vstd::prelude::*;

verus! {

/// Number of 8-bit storage cells in the register file.
pub const REG_COUNT8: usize = 16;

/// The 8-bit registers. `_HL` is the pseudo-register for the byte in memory
/// that the generic HL pair (or an index register) points to; it has no cell.
#[allow(non_camel_case_types)]
#[derive(Clone, Copy, Debug, PartialEq, Eq, Structural)]
pub enum Reg8 {
    A,
    F,
    B,
    C,
    D,
    E,
    H,
    L,
    I,
    R,
    IXH,
    IXL,
    IYH,
    IYL,
    SPH,
    SPL,
    _HL,
}

/// The 16-bit register pairs, each made of a high and a low 8-bit cell.
#[derive(Clone, Copy, Debug, PartialEq, Eq, Structural)]
pub enum Reg16 {
    AF,
    BC,
    DE,
    HL,
    IX,
    IY,
    SP,
}

/// Cell of an 8-bit register.
pub open spec fn cell8(r: Reg8) -> int {
    match r {
        Reg8::A => 0,
        Reg8::F => 1,
        Reg8::B => 2,
        Reg8::C => 3,
        Reg8::D => 4,
        Reg8::E => 5,
        Reg8::H => 6,
        Reg8::L => 7,
        Reg8::I => 8,
        Reg8::R => 9,
        Reg8::IXH => 10,
        Reg8::IXL => 11,
        Reg8::IYH => 12,
        Reg8::IYL => 13,
        Reg8::SPH => 14,
        Reg8::SPL => 15,
        Reg8::_HL => 16,
    }
}

/// Cell of the high half of a pair; the low half is the next cell.
pub open spec fn cell16(rr: Reg16) -> int {
    match rr {
        Reg16::AF => 0,
        Reg16::BC => 2,
        Reg16::DE => 4,
        Reg16::HL => 6,
        Reg16::IX => 10,
        Reg16::IY => 12,
        Reg16::SP => 14,
    }
}

/// The value of a pair over the cells: high * 256 + low.
pub open spec fn pair_value(data: Seq<u8>, rr: Reg16) -> u16 {
    (data[cell16(rr)] as int * 256 + data[cell16(rr) + 1] as int) as u16
}

/// The cells after a pair has been written with `v`.
pub open spec fn with_pair(data: Seq<u8>, rr: Reg16, v: u16) -> Seq<u8> {
    data.update(cell16(rr), (v / 256) as u8).update(cell16(rr) + 1, (v % 256) as u8)
}

/// Writing a pair and reading it back gives the value written.
pub proof fn lemma_pair_write_read(data: Seq<u8>, rr: Reg16, v: u16)
    requires
        data.len() == REG_COUNT8,
    ensures
        pair_value(with_pair(data, rr, v), rr) == v,
{
    let d = with_pair(data, rr, v);
    assert(d[cell16(rr)] == (v / 256) as u8);
    assert(d[cell16(rr) + 1] == (v % 256) as u8);
    assert((v / 256) as int * 256 + (v % 256) as int == v as int);
}

fn slot8(r: Reg8) -> (i: usize)
    requires
        r != Reg8::_HL,
    ensures
        i as int == cell8(r),
{
    match r {
        Reg8::A => 0,
        Reg8::F => 1,
        Reg8::B => 2,
        Reg8::C => 3,
        Reg8::D => 4,
        Reg8::E => 5,
        Reg8::H => 6,
        Reg8::L => 7,
        Reg8::I => 8,
        Reg8::R => 9,
        Reg8::IXH => 10,
        Reg8::IXL => 11,
        Reg8::IYH => 12,
        Reg8::IYL => 13,
        Reg8::SPH => 14,
        Reg8::SPL => 15,
        Reg8::_HL => 16,
    }
}

fn slot16(rr: Reg16) -> (i: usize)
    ensures
        i as int == cell16(rr),
{
    match rr {
        Reg16::AF => 0,
        Reg16::BC => 2,
        Reg16::DE => 4,
        Reg16::HL => 6,
        Reg16::IX => 10,
        Reg16::IY => 12,
        Reg16::SP => 14,
    }
}

/// The register file: sixteen 8-bit cells and the program counter.
pub struct Registers {
    data: Vec<u8>,
    pc: u16,
}

impl Registers {
    pub closed spec fn cells(&self) -> Seq<u8> {
        self.data@
    }

    pub closed spec fn pc_spec(&self) -> u16 {
        self.pc
    }

    pub closed spec fn wf(&self) -> bool {
        self.data@.len() == REG_COUNT8
    }

    /// A well-formed register file has sixteen cells.
    pub proof fn lemma_cells_len(&self)
        requires
            self.wf(),
        ensures
            self.cells().len() == REG_COUNT8,
    {
    }

    /// A register file after reset: AF and SP hold 0xFFFF, all else is zero.
    pub fn new() -> (r: Registers)
        ensures
            r.wf(),
            r.pc_spec() == 0,
            pair_value(r.cells(), Reg16::AF) == 0xFFFF,
            pair_value(r.cells(), Reg16::SP) == 0xFFFF,
            forall|i: int| 2 <= i < 14 ==> r.cells()[i] == 0,
    {
        let mut data: Vec<u8> = Vec::new();
        let mut i: usize = 0;
        while i < REG_COUNT8
            invariant
                i <= REG_COUNT8,
                data@.len() == i,
                forall|j: int| 0 <= j < i ==> data@[j] == (if j < 2 || j >= 14 { 0xFFu8 } else { 0u8 }),
            decreases REG_COUNT8 - i,
        {
            if i < 2 || i >= 14 {
                data.push(0xFF);
            } else {
                data.push(0);
            }
            i = i + 1;
        }
        Registers { data, pc: 0 }
    }

    /// Value of an 8-bit register.
    pub fn get8(&self, reg: Reg8) -> (v: u8)
        requires
            self.wf(),
            reg != Reg8::_HL,
        ensures
            v == self.cells()[cell8(reg)],
    {
        self.data[slot8(reg)]
    }

    /// Writes an 8-bit register; no other cell changes.
    pub fn set8(&mut self, reg: Reg8, value: u8)
        requires
            old(self).wf(),
            reg != Reg8::_HL,
        ensures
            final(self).wf(),
            final(self).cells() == old(self).cells().update(cell8(reg), value),
            final(self).pc_spec() == old(self).pc_spec(),
    {
        let i = slot8(reg);
        self.data.set(i, value);
    }

    /// Value of a 16-bit pair, high cell first.
    pub fn get16(&self, rr: Reg16) -> (v: u16)
        requires
            self.wf(),
        ensures
            v == pair_value(self.cells(), rr),
    {
        let i = slot16(rr);
        let h = self.data[i] as u16;
        let l = self.data[i + 1] as u16;
        h * 256 + l
    }

    /// Writes a 16-bit pair into its two cells; no other cell changes.
    pub fn set16(&mut self, rr: Reg16, value: u16)
        requires
            old(self).wf(),
        ensures
            final(self).wf(),
            final(self).cells() == with_pair(old(self).cells(), rr, value),
            pair_value(final(self).cells(), rr) == value,
            final(self).pc_spec() == old(self).pc_spec(),
    {
        let i = slot16(rr);
        self.data.set(i, (value / 256) as u8);
        self.data.set(i + 1, (value % 256) as u8);
    }

    /// The program counter.
    pub fn pc(&self) -> (v: u16)
        ensures
            v == self.pc_spec(),
    {
        self.pc
    }

    /// Sets the program counter; the cells are unchanged.
    pub fn set_pc(&mut self, value: u16)
        ensures
            final(self).pc_spec() == value,
            final(self).cells() == old(self).cells(),
            final(self).wf() == old(self).wf(),
    {
        self.pc = value;
    }
}

} // verus!
