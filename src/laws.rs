use vstd::prelude::*;

use crate::registers::{cell8, lemma_pair_write_read, pair_value, with_pair, Reg16, Reg8};
use crate::layout::CCP_BASE_ADDRESS;
use crate::loader::{load_len, loaded};
use crate::state::{translate, wrap16, State, MEM_SIZE};

verus! {

/// Under an index context the halves of the generic HL pair are the halves of
/// the selected index register; with no context they are H and L themselves.
/// A write through an index context leaves the cells of H and L as they were,
/// so returning to no context shows them unchanged.
pub proof fn lemma_half_register_routing(index: Reg16, half: Reg8, cells: Seq<u8>, v: u8)
    requires
        index == Reg16::HL || index == Reg16::IX || index == Reg16::IY,
        half == Reg8::H || half == Reg8::L,
        cells.len() == 16,
    ensures
        index == Reg16::HL ==> translate(index, half) == half,
        index == Reg16::IX ==> translate(index, half) == (if half == Reg8::H {
            Reg8::IXH
        } else {
            Reg8::IXL
        }),
        index == Reg16::IY ==> translate(index, half) == (if half == Reg8::H {
            Reg8::IYH
        } else {
            Reg8::IYL
        }),
        index != Reg16::HL ==> cells.update(cell8(translate(index, half)), v)[cell8(half)]
            == cells[cell8(half)],
        index != Reg16::HL ==> cells.update(cell8(translate(index, half)), v)[cell8(
            translate(Reg16::HL, half),
        )] == cells[cell8(half)],
{
}

/// The pseudo-register with no index context and no displacement is the byte
/// at HL; with IX selected and displacement 5 it is the byte at IX + 5,
/// modulo 65536.
pub proof fn lemma_indirect_address(s: State)
    requires
        s.wf(),
    ensures
        s.index == Reg16::HL && s.displacement == 0 ==> s.index_address_spec() == s.pair(
            Reg16::HL,
        ),
        s.index == Reg16::IX && s.displacement == 5 ==> s.index_address_spec() == wrap16(
            s.pair(Reg16::IX) + 5,
        ),
{
}

/// Popping right after pushing `v` returns `v` and gives back the stack
/// pointer held before the push.
pub proof fn lemma_pop_after_push(s0: State, v: u16, s1: State, s2: State, r: u16)
    requires
        s0.wf(),
        State::pushed(s0, v, s1),
        State::popped(s1, s2, r),
    ensures
        r == v,
        s2.pair(Reg16::SP) == s0.pair(Reg16::SP),
{
    let sp = s0.pair(Reg16::SP);
    let sp1 = wrap16(sp - 2);
    s0.reg.lemma_cells_len();
    s1.reg.lemma_cells_len();
    lemma_pair_write_read(s0.reg.cells(), Reg16::SP, sp1);
    lemma_pair_write_read(s1.reg.cells(), Reg16::SP, sp);
    assert(s1.pair(Reg16::SP) == sp1);
    assert(wrap16(sp1 + 1) == wrap16(sp - 1));
    assert(wrap16(sp1 + 2) == sp);
    assert(sp1 != wrap16(sp - 1));
    assert(r == v);
}

/// An image larger than the room above its base loads without failure, and
/// memory from the base up holds exactly its first bytes, as many as fit.
pub proof fn lemma_oversized_image_truncated(mem: Seq<u8>, image: Seq<u8>, base: u16)
    requires
        mem.len() == MEM_SIZE,
        image.len() > MEM_SIZE - base,
    ensures
        load_len(image.len() as int, base) == MEM_SIZE - base,
        forall|i: int|
            base <= i < MEM_SIZE ==> #[trigger] loaded(
                mem,
                image,
                base as int,
                load_len(image.len() as int, base),
            )[i] == image[i - base],
        forall|i: int|
            0 <= i < base ==> #[trigger] loaded(
                mem,
                image,
                base as int,
                load_len(image.len() as int, base),
            )[i] == mem[i],
{
}

/// A command processor image that fits above its base is in memory byte
/// for byte from the base up after loading.
pub proof fn lemma_command_processor_in_place(mem: Seq<u8>, image: Seq<u8>)
    requires
        mem.len() == MEM_SIZE,
        image.len() <= MEM_SIZE - CCP_BASE_ADDRESS,
    ensures
        load_len(image.len() as int, CCP_BASE_ADDRESS) == image.len(),
        forall|k: int|
            0 <= k < image.len() ==> #[trigger] loaded(
                mem,
                image,
                CCP_BASE_ADDRESS as int,
                image.len() as int,
            )[CCP_BASE_ADDRESS + k] == image[k],
{
}

} // verus!
