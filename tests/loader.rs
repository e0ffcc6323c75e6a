use iz_cpm::dispatch::{next_action, Action, Fault};
use iz_cpm::fcb::name_to_8_3;
use iz_cpm::layout::{
    BDOS_BASE_ADDRESS, BIOS_BASE_ADDRESS, CCP_BASE_ADDRESS, FCB1_ADDRESS, FCB2_ADDRESS,
    SYSTEM_PARAMS_ADDRESS, TPA_BASE_ADDRESS, TPA_STACK_ADDRESS,
};
use iz_cpm::loader::next_token;
use iz_cpm::registers::Reg16;
use iz_cpm::state::State;

fn bytes_at(s: &State, at: u16, n: usize) -> Vec<u8> {
    (0..n).map(|i| s.peek(at + i as u16)).collect()
}

#[test]
fn command_processor_image_is_loaded_at_its_base() {
    let image: Vec<u8> = (0..200u32).map(|i| (i * 7) as u8).collect();
    let mut s = State::new();
    let n = s.start_command_processor(&image);
    assert_eq!(n, 200);
    assert_eq!(bytes_at(&s, CCP_BASE_ADDRESS, 200), image);
    assert_eq!(s.reg.pc(), CCP_BASE_ADDRESS);
}

#[test]
fn oversized_image_is_truncated() {
    let image: Vec<u8> = (0..70000u32).map(|i| (i % 251) as u8).collect();
    let mut s = State::new();
    let n = s.load_image(&image, TPA_BASE_ADDRESS);
    assert_eq!(n, 65536 - 0x100);
    assert_eq!(s.peek(0x0100), image[0]);
    assert_eq!(s.peek(0xFFFF), image[0xFFFF - 0x100]);
    assert_eq!(s.peek(0x00FF), 0);
}

#[test]
fn transient_program_starts_with_zero_return_address() {
    let image = vec![0xC9u8, 0x00, 0x76];
    let mut s = State::new();
    assert_eq!(s.start_transient(&image), 3);
    assert_eq!(s.reg.pc(), TPA_BASE_ADDRESS);
    assert_eq!(s.reg.get16(Reg16::SP), TPA_STACK_ADDRESS - 2);
    assert_eq!(bytes_at(&s, 0x100, 3), image);
    assert_eq!(s.pop(), 0x0000);
    assert_eq!(s.reg.get16(Reg16::SP), TPA_STACK_ADDRESS);
}

#[test]
fn command_tail_fills_buffer_and_fcbs() {
    let mut s = State::new();
    let tail = b"abc*.* other.txt".to_vec();
    s.apply_command_tail(&tail);
    assert_eq!(s.peek(SYSTEM_PARAMS_ADDRESS), 16);
    assert_eq!(bytes_at(&s, SYSTEM_PARAMS_ADDRESS + 1, 16), tail);
    assert_eq!(s.peek(FCB1_ADDRESS), 0);
    assert_eq!(bytes_at(&s, FCB1_ADDRESS + 1, 8), b"ABC?????".to_vec());
    assert_eq!(bytes_at(&s, FCB1_ADDRESS + 9, 3), b"???".to_vec());
    assert_eq!(bytes_at(&s, FCB2_ADDRESS + 1, 11), b"OTHER   TXT".to_vec());
}

#[test]
fn command_tail_is_cut_to_126_bytes() {
    let mut s = State::new();
    let tail = vec![b'x'; 200];
    s.apply_command_tail(&tail);
    assert_eq!(s.peek(SYSTEM_PARAMS_ADDRESS), 126);
    assert_eq!(s.peek(SYSTEM_PARAMS_ADDRESS + 1), b'x');
    assert_eq!(s.peek(SYSTEM_PARAMS_ADDRESS + 126), b'x');
    assert_eq!(s.peek(SYSTEM_PARAMS_ADDRESS + 127), 0);
}

#[test]
fn no_command_tail_gives_empty_buffer() {
    let mut s = State::new();
    s.poke(SYSTEM_PARAMS_ADDRESS, 9);
    s.clear_command_tail();
    assert_eq!(s.peek(SYSTEM_PARAMS_ADDRESS), 0);
}

#[test]
fn single_word_tail_leaves_second_fcb() {
    let mut s = State::new();
    s.apply_command_tail(&b"  file.c  ".to_vec());
    assert_eq!(bytes_at(&s, FCB1_ADDRESS + 1, 11), b"FILE    C  ".to_vec());
    assert_eq!(bytes_at(&s, FCB2_ADDRESS, 12), vec![0u8; 12]);
}

#[test]
fn fcb_name_wraps_at_top_of_memory() {
    let mut s = State::new();
    s.set_fcb_name(0xFFFA, &b"ABCDEFGHTXT".to_vec());
    assert_eq!(s.peek(0xFFFA), 0);
    assert_eq!(bytes_at(&s, 0xFFFB, 5), b"ABCDE".to_vec());
    assert_eq!(bytes_at(&s, 0x0000, 6), b"FGHTXT".to_vec());
    assert_eq!(s.peek(0x0006), 0);
}

#[test]
fn words_are_split_on_blanks() {
    let t = b" \tab  cd\n".to_vec();
    assert_eq!(next_token(&t, 0), (2, 4));
    assert_eq!(next_token(&t, 4), (6, 8));
    assert_eq!(next_token(&t, 8), (9, 9));
}

#[test]
fn eight_three_names() {
    assert_eq!(name_to_8_3(&b"readme.txt".to_vec()), Some(b"README  TXT".to_vec()));
    assert_eq!(name_to_8_3(&b"verylongname.text".to_vec()), Some(b"VERYLONGTEX".to_vec()));
    assert_eq!(name_to_8_3(&b"*.com".to_vec()), Some(b"????????COM".to_vec()));
    assert_eq!(name_to_8_3(&b"noext".to_vec()), Some(b"NOEXT      ".to_vec()));
    assert_eq!(name_to_8_3(&b".txt".to_vec()), None);
    assert_eq!(name_to_8_3(&Vec::new()), None);
}

#[test]
fn runaway_into_bdos_is_fatal() {
    assert_eq!(next_action(false, BDOS_BASE_ADDRESS - 1), Action::Fatal(Fault::RunawayIntoBdos));
}

#[test]
fn step_decisions() {
    assert_eq!(next_action(true, 0x0100), Action::Fatal(Fault::HaltInstruction));
    assert_eq!(next_action(false, BDOS_BASE_ADDRESS), Action::CallBdos);
    assert_eq!(next_action(false, BIOS_BASE_ADDRESS), Action::CallBios(0));
    assert_eq!(next_action(false, BIOS_BASE_ADDRESS + 6), Action::CallBios(2));
    assert_eq!(next_action(false, BIOS_BASE_ADDRESS + 7), Action::Continue);
    assert_eq!(next_action(false, 0x0100), Action::Continue);
}
