use chipp::cpu::Cpu;
use chipp::input::{keypad_code, poll_input};

fn held(positions: &[usize]) -> [bool; 16] {
    let mut keys = [false; 16];
    for p in positions {
        keys[*p] = true;
    }
    keys
}

#[test]
fn keypad_codes_follow_the_layout() {
    let codes: Vec<u8> = (0..16).map(keypad_code).collect();
    assert_eq!(
        codes,
        vec![0x1, 0x2, 0x3, 0xC, 0x4, 0x5, 0x6, 0xD, 0x7, 0x8, 0x9, 0xE, 0xA, 0x0, 0xB, 0xF]
    );
}

#[test]
fn no_key_held_means_no_key() {
    let mut cpu = Cpu::new();
    poll_input(&held(&[]), &mut cpu);
    assert_eq!(cpu.current_key(), None);
}

#[test]
fn a_held_key_is_seen() {
    let mut cpu = Cpu::new();
    poll_input(&held(&[3]), &mut cpu);
    assert_eq!(cpu.current_key(), Some(0xC));
    poll_input(&held(&[13]), &mut cpu);
    assert_eq!(cpu.current_key(), Some(0x0));
    poll_input(&held(&[0]), &mut cpu);
    assert_eq!(cpu.current_key(), Some(0x1));
}

#[test]
fn the_last_held_key_wins() {
    let mut cpu = Cpu::new();
    poll_input(&held(&[0, 5, 2]), &mut cpu);
    assert_eq!(cpu.current_key(), Some(0x5));
    poll_input(&held(&[15, 0]), &mut cpu);
    assert_eq!(cpu.current_key(), Some(0xF));
    poll_input(&[true; 16], &mut cpu);
    assert_eq!(cpu.current_key(), Some(0xF));
}

#[test]
fn a_released_key_is_forgotten() {
    let mut cpu = Cpu::new();
    poll_input(&held(&[7]), &mut cpu);
    assert_eq!(cpu.current_key(), Some(0xD));
    poll_input(&held(&[]), &mut cpu);
    assert_eq!(cpu.current_key(), None);
}

#[test]
fn polling_changes_the_key_only() {
    let mut cpu = Cpu::new();
    assert_eq!(cpu.load_program_into_memory(&[0x60, 0x01]), Ok(()));
    assert_eq!(cpu.step(0), Ok(()));
    poll_input(&held(&[4]), &mut cpu);
    assert_eq!(cpu.program_counter(), 514);
    assert_eq!(cpu.v_registers()[0], 1);
    assert_eq!(cpu.memory()[512], 0x60);
}

#[test]
fn key_wait_waits_until_a_key_is_held() {
    let mut cpu = Cpu::new();
    assert_eq!(cpu.load_program_into_memory(&[0xF3, 0x0A]), Ok(()));
    assert_eq!(cpu.step(0), Ok(()));
    assert!(cpu.waiting_for_input());
    assert_eq!(cpu.program_counter(), 512);
    assert_eq!(cpu.step(0), Ok(()));
    assert!(cpu.waiting_for_input());
    assert_eq!(cpu.program_counter(), 512);
    poll_input(&held(&[4]), &mut cpu);
    assert_eq!(cpu.step(0), Ok(()));
    assert!(!cpu.waiting_for_input());
    assert_eq!(cpu.v_registers()[3], 0x4);
    assert_eq!(cpu.program_counter(), 514);
}

#[test]
fn skip_if_key_is_held() {
    let program = [0x60, 0x04, 0xE0, 0x9E];
    let mut cpu = Cpu::new();
    assert_eq!(cpu.load_program_into_memory(&program), Ok(()));
    poll_input(&held(&[4]), &mut cpu);
    assert_eq!(cpu.step(0), Ok(()));
    assert_eq!(cpu.step(0), Ok(()));
    assert_eq!(cpu.program_counter(), 0x206);

    let mut other = Cpu::new();
    assert_eq!(other.load_program_into_memory(&program), Ok(()));
    poll_input(&held(&[5]), &mut other);
    assert_eq!(other.step(0), Ok(()));
    assert_eq!(other.step(0), Ok(()));
    assert_eq!(other.program_counter(), 0x204);

    let mut none = Cpu::new();
    assert_eq!(none.load_program_into_memory(&program), Ok(()));
    assert_eq!(none.step(0), Ok(()));
    assert_eq!(none.step(0), Ok(()));
    assert_eq!(none.program_counter(), 0x204);
}

#[test]
fn skip_if_key_is_not_held() {
    let program = [0x60, 0x04, 0xE0, 0xA1];
    let mut cpu = Cpu::new();
    assert_eq!(cpu.load_program_into_memory(&program), Ok(()));
    poll_input(&held(&[4]), &mut cpu);
    assert_eq!(cpu.step(0), Ok(()));
    assert_eq!(cpu.step(0), Ok(()));
    assert_eq!(cpu.program_counter(), 0x204);

    let mut other = Cpu::new();
    assert_eq!(other.load_program_into_memory(&program), Ok(()));
    poll_input(&held(&[5]), &mut other);
    assert_eq!(other.step(0), Ok(()));
    assert_eq!(other.step(0), Ok(()));
    assert_eq!(other.program_counter(), 0x206);

    let mut none = Cpu::new();
    assert_eq!(none.load_program_into_memory(&program), Ok(()));
    assert_eq!(none.step(0), Ok(()));
    assert_eq!(none.step(0), Ok(()));
    assert_eq!(none.program_counter(), 0x206);
}
