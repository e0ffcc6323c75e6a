use iz_cpm::registers::{Reg16, Reg8, Registers};
use iz_cpm::state::{Io, State};

struct EchoPorts;

impl Io for EchoPorts {
    fn answers(&self, state: State, address: u16, r: u8) -> bool {
        r == (address as u8).wrapping_add(state.reg.get8(Reg8::A))
    }

    fn takes(&self, _state: State, _address: u16, _value: u8) -> bool {
        true
    }

    fn port_in(&self, state: &State, address: u16) -> u8 {
        (address as u8).wrapping_add(state.reg.get8(Reg8::A))
    }

    fn port_out(&self, _state: &State, _address: u16, _value: u8) {}
}

#[test]
fn registers_after_reset() {
    let r = Registers::new();
    assert_eq!(r.get16(Reg16::AF), 0xFFFF);
    assert_eq!(r.get16(Reg16::SP), 0xFFFF);
    assert_eq!(r.get16(Reg16::BC), 0);
    assert_eq!(r.get16(Reg16::IX), 0);
    assert_eq!(r.pc(), 0);
}

#[test]
fn state_after_reset() {
    let s = State::new();
    assert_eq!(s.reg.get16(Reg16::AF), 0xFFFF);
    assert_eq!(s.reg.get16(Reg16::SP), 0xFFFF);
    assert_eq!(s.reg.get16(Reg16::HL), 0);
    assert_eq!(s.reg.pc(), 0);
    assert_eq!(s.peek(0x1234), 0);
    assert_eq!(s.index, Reg16::HL);
    assert_eq!(s.displacement, 0);
    assert_eq!(s.cycles, 0);
    assert!(!s.halted);
}

#[test]
fn pair_is_high_times_256_plus_low() {
    let mut r = Registers::new();
    r.set8(Reg8::B, 0x12);
    r.set8(Reg8::C, 0x34);
    assert_eq!(r.get16(Reg16::BC), 0x1234);
    r.set16(Reg16::DE, 0xABCD);
    assert_eq!(r.get8(Reg8::D), 0xAB);
    assert_eq!(r.get8(Reg8::E), 0xCD);
}

#[test]
fn half_registers_follow_index_context() {
    for (index, high, low) in [
        (Reg16::IX, Reg8::IXH, Reg8::IXL),
        (Reg16::IY, Reg8::IYH, Reg8::IYL),
    ] {
        let mut s = State::new();
        s.set_reg(Reg8::H, 0x11);
        s.set_reg(Reg8::L, 0x22);
        s.index = index;
        s.set_reg(Reg8::H, 0xA1);
        s.set_reg(Reg8::L, 0xB2);
        assert_eq!(s.get_reg(Reg8::H), 0xA1);
        assert_eq!(s.get_reg(Reg8::L), 0xB2);
        assert_eq!(s.reg.get8(high), 0xA1);
        assert_eq!(s.reg.get8(low), 0xB2);
        assert_eq!(s.get_reg16(Reg16::HL), 0xA1B2);
        s.index = Reg16::HL;
        assert_eq!(s.get_reg(Reg8::H), 0x11);
        assert_eq!(s.get_reg(Reg8::L), 0x22);
        assert_eq!(s.get_reg16(Reg16::HL), 0x1122);
    }
}

#[test]
fn other_registers_ignore_index_context() {
    let mut s = State::new();
    s.index = Reg16::IX;
    s.set_reg(Reg8::B, 7);
    assert_eq!(s.reg.get8(Reg8::B), 7);
    assert_eq!(s.get_reg(Reg8::B), 7);
    s.set_reg16(Reg16::DE, 0x4455);
    assert_eq!(s.get_reg16(Reg16::DE), 0x4455);
}

#[test]
fn set_reg16_hl_goes_to_selected_pair() {
    let mut s = State::new();
    s.index = Reg16::IY;
    s.set_reg16(Reg16::HL, 0x9876);
    assert_eq!(s.reg.get16(Reg16::IY), 0x9876);
    assert_eq!(s.reg.get16(Reg16::HL), 0);
    assert_eq!(s.get_index_value(), 0x9876);
}

#[test]
fn indirect_without_context_is_memory_at_hl() {
    let mut s = State::new();
    s.set_reg16(Reg16::HL, 0x1234);
    s.poke(0x1234, 0x56);
    assert_eq!(s.get_reg(Reg8::_HL), 0x56);
    s.set_reg(Reg8::_HL, 0x77);
    assert_eq!(s.peek(0x1234), 0x77);
    assert_eq!(s.get_index_address(), 0x1234);
}

#[test]
fn indirect_with_index_and_displacement_wraps() {
    let mut s = State::new();
    s.reg.set16(Reg16::IX, 0x1000);
    s.index = Reg16::IX;
    s.displacement = 5;
    s.poke(0x1005, 0x42);
    assert_eq!(s.get_reg(Reg8::_HL), 0x42);
    s.reg.set16(Reg16::IX, 0xFFFE);
    assert_eq!(s.get_index_address(), 0x0003);
    s.set_reg(Reg8::_HL, 0x99);
    assert_eq!(s.peek(0x0003), 0x99);
    s.reg.set16(Reg16::IX, 0x0002);
    s.displacement = -5;
    assert_eq!(s.get_index_address(), 0xFFFD);
}

#[test]
fn pop_after_push_returns_value() {
    for sp in [0xFFFFu16, 0x0000, 0x0001, 0x8000] {
        for v in [0u16, 1, 0x1234, 0xFFFF, 0x00FF, 0xFF00] {
            let mut s = State::new();
            s.reg.set16(Reg16::SP, sp);
            s.push(v);
            assert_eq!(s.reg.get16(Reg16::SP), sp.wrapping_sub(2));
            assert_eq!(s.pop(), v);
            assert_eq!(s.reg.get16(Reg16::SP), sp);
        }
    }
}

#[test]
fn push_puts_low_byte_on_top() {
    let mut s = State::new();
    s.reg.set16(Reg16::SP, 0x2000);
    s.push(0xABCD);
    assert_eq!(s.peek(0x1FFF), 0xAB);
    assert_eq!(s.peek(0x1FFE), 0xCD);
}

#[test]
fn fetch_at_top_wraps_to_zero() {
    let mut s = State::new();
    s.poke(0xFFFF, 0xAB);
    s.reg.set_pc(0xFFFF);
    assert_eq!(s.peek_pc(), 0xAB);
    assert_eq!(s.advance_pc(), 0xAB);
    assert_eq!(s.reg.pc(), 0x0000);
}

#[test]
fn fetch_immediate16_is_little_endian() {
    let mut s = State::new();
    s.poke(0x0200, 0x34);
    s.poke(0x0201, 0x12);
    s.reg.set_pc(0x0200);
    assert_eq!(s.peek16_pc(), 0x1234);
    assert_eq!(s.advance_immediate16(), 0x1234);
    assert_eq!(s.reg.pc(), 0x0202);
}

#[test]
fn immediate16_across_top_of_memory() {
    let mut s = State::new();
    s.poke(0xFFFF, 0x78);
    s.poke(0x0000, 0x56);
    s.reg.set_pc(0xFFFF);
    assert_eq!(s.peek16_pc(), 0x5678);
    assert_eq!(s.advance_immediate16(), 0x5678);
    assert_eq!(s.reg.pc(), 0x0001);
}

#[test]
fn ports_go_through_handlers() {
    let mut s = State::new();
    s.reg.set8(Reg8::A, 3);
    assert_eq!(s.port_in(&EchoPorts, 0x10), 0x13);
    s.port_out(&EchoPorts, 0x10, 1);
}
