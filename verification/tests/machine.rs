use chipp::cpu::Cpu;
use chipp::instruction::Instruction;
use chipp::state::Fault;

fn loaded(program: &[u8]) -> Cpu {
    let mut cpu = Cpu::new();
    assert_eq!(cpu.load_program_into_memory(program), Ok(()));
    cpu
}

#[test]
fn new_machine_starts_at_program_start() {
    let cpu = Cpu::new();
    assert_eq!(cpu.program_counter(), 512);
    assert_eq!(cpu.index_register(), 0);
    assert_eq!(cpu.stack_depth(), 0);
    assert!(!cpu.should_halt());
    assert!(!cpu.step_mode());
    assert!(!cpu.waiting_for_input());
    assert_eq!(cpu.current_key(), None);
    assert!(cpu.memory().iter().all(|b| *b == 0));
    assert!(cpu.v_registers().iter().all(|b| *b == 0));
    assert!(cpu.pixel_buffer().iter().all(|row| row.iter().all(|p| !*p)));
}

#[test]
fn load_places_the_program_at_512() {
    let cpu = loaded(&[1, 2, 3]);
    assert_eq!(cpu.memory()[511], 0);
    assert_eq!(cpu.memory()[512], 1);
    assert_eq!(cpu.memory()[513], 2);
    assert_eq!(cpu.memory()[514], 3);
    assert_eq!(cpu.memory()[515], 0);
    assert_eq!(cpu.program_counter(), 512);
}

#[test]
fn load_accepts_the_largest_program() {
    let program = vec![0xABu8; 3584];
    let cpu = loaded(&program);
    assert_eq!(cpu.memory()[512], 0xAB);
    assert_eq!(cpu.memory()[4095], 0xAB);
    assert_eq!(cpu.memory()[511], 0);
    assert_eq!(cpu.program_counter(), 512);
}

#[test]
fn load_accepts_the_empty_program() {
    let cpu = loaded(&[]);
    assert!(cpu.memory().iter().all(|b| *b == 0));
    assert_eq!(cpu.program_counter(), 512);
}

#[test]
fn load_refuses_a_program_that_is_too_large() {
    let program = vec![0xABu8; 3585];
    let mut cpu = Cpu::new();
    assert_eq!(cpu.load_program_into_memory(&program), Err(Fault::ProgramTooLarge));
    assert!(cpu.memory().iter().all(|b| *b == 0));
    assert_eq!(cpu.program_counter(), 512);
}

#[test]
fn load_resets_the_program_counter() {
    let mut cpu = loaded(&[0x60, 0x01, 0x61, 0x02]);
    assert_eq!(cpu.step(0), Ok(()));
    assert_eq!(cpu.program_counter(), 514);
    assert_eq!(cpu.load_program_into_memory(&[0x62, 0x03]), Ok(()));
    assert_eq!(cpu.program_counter(), 512);
    assert_eq!(cpu.memory()[512], 0x62);
    assert_eq!(cpu.memory()[513], 0x03);
    assert_eq!(cpu.memory()[514], 0x61);
    assert_eq!(cpu.v_registers()[0], 0x01);
}

#[test]
fn decode_splits_the_bytes() {
    let ins = Instruction::decode(0xD1, 0x2F);
    assert_eq!(ins.instruction, 0xD);
    assert_eq!(ins.x, 0x1);
    assert_eq!(ins.y, 0x2);
    assert_eq!(ins.n, 0xF);
    assert_eq!(ins.nn, 0x2F);
    assert_eq!(ins.nnn, 0x12F);
}

#[test]
fn decode_of_the_extreme_bytes() {
    let low = Instruction::decode(0x00, 0x00);
    assert_eq!(
        (low.instruction, low.x, low.y, low.n, low.nn, low.nnn),
        (0, 0, 0, 0, 0, 0)
    );
    let high = Instruction::decode(0xFF, 0xFF);
    assert_eq!(
        (high.instruction, high.x, high.y, high.n, high.nn, high.nnn),
        (0xF, 0xF, 0xF, 0xF, 0xFF, 0xFFF)
    );
}

#[test]
fn fetch_decodes_and_advances_by_two() {
    let mut cpu = loaded(&[0x61, 0x23]);
    let ins = cpu.fetch();
    assert_eq!(ins, Instruction::decode(0x61, 0x23));
    assert_eq!(ins.instruction, 0x6);
    assert_eq!(ins.x, 0x1);
    assert_eq!(ins.nn, 0x23);
    assert_eq!(cpu.program_counter(), 514);
    assert_eq!(cpu.v_registers()[1], 0);
}

#[test]
fn fetch_wraps_at_the_end_of_memory() {
    let mut cpu = Cpu::new();
    assert_eq!(cpu.set_program_counter(4094), Ok(()));
    let ins = cpu.fetch();
    assert_eq!(ins, Instruction::decode(0, 0));
    assert_eq!(cpu.program_counter(), 0);
}

#[test]
fn skip_wraps_at_the_end_of_memory() {
    let mut program = vec![0u8; 3584];
    program[3580] = 0x30;
    program[3581] = 0x00;
    let mut cpu = loaded(&program);
    assert_eq!(cpu.set_program_counter(4092), Ok(()));
    assert_eq!(cpu.step(0), Ok(()));
    assert_eq!(cpu.program_counter(), 0);
}

#[test]
fn program_counter_has_to_be_an_address() {
    let mut cpu = Cpu::new();
    assert_eq!(cpu.set_program_counter(4095), Ok(()));
    assert_eq!(cpu.program_counter(), 4095);
    assert_eq!(cpu.set_program_counter(4096), Err(Fault::CounterOutOfRange));
    assert_eq!(cpu.program_counter(), 4095);
    assert_eq!(cpu.set_program_counter(65535), Err(Fault::CounterOutOfRange));
    assert_eq!(cpu.program_counter(), 4095);
}

#[test]
fn step_at_the_last_address_is_a_fault() {
    let mut cpu = Cpu::new();
    assert_eq!(cpu.set_program_counter(4095), Ok(()));
    assert_eq!(cpu.step(0), Err(Fault::MemoryOutOfRange));
    assert_eq!(cpu.program_counter(), 4095);
}

#[test]
fn fetch_opcodes_shows_previous_current_and_next() {
    let mut cpu = loaded(&[0x61, 0x23, 0xA2, 0x02, 0xD0, 0x01]);
    assert_eq!(cpu.step(0), Ok(()));
    assert_eq!(cpu.program_counter(), 514);
    assert_eq!(cpu.fetch_opcodes(), [0x6123, 0xA202, 0xD001]);
    assert_eq!(cpu.program_counter(), 514);
}

#[test]
fn set_step_mode_sets_the_flag_only() {
    let mut cpu = Cpu::new();
    cpu.set_step_mode(true);
    assert!(cpu.step_mode());
    assert_eq!(cpu.program_counter(), 512);
    cpu.set_step_mode(false);
    assert!(!cpu.step_mode());
}

#[test]
fn return_with_empty_stack_is_a_fault() {
    let mut cpu = loaded(&[0x00, 0xEE]);
    assert_eq!(cpu.step(0), Err(Fault::EmptyStack));
    assert_eq!(cpu.program_counter(), 512);
    assert_eq!(cpu.stack_depth(), 0);
}

#[test]
fn dispatcher_reports_a_fault_and_keeps_the_state() {
    let mut cpu = loaded(&[0x00, 0xEE]);
    let ins = cpu.fetch();
    assert_eq!(cpu.decode_and_execute(ins, 0), Err(Fault::EmptyStack));
    assert_eq!(cpu.program_counter(), 514);
}

#[test]
fn call_then_return_comes_back_after_the_call() {
    let mut cpu = loaded(&[0x22, 0x06, 0x60, 0x01, 0x12, 0x04, 0x00, 0xEE]);
    assert_eq!(cpu.step(0), Ok(()));
    assert_eq!(cpu.program_counter(), 0x206);
    assert_eq!(cpu.stack_depth(), 1);
    assert_eq!(cpu.step(0), Ok(()));
    assert_eq!(cpu.program_counter(), 0x202);
    assert_eq!(cpu.stack_depth(), 0);
    assert_eq!(cpu.step(0), Ok(()));
    assert_eq!(cpu.v_registers()[0], 1);
}

#[test]
fn nested_calls_return_in_reverse_order() {
    let mut cpu = loaded(&[0x22, 0x04, 0x12, 0x02, 0x22, 0x08, 0x00, 0xEE, 0x00, 0xEE]);
    assert_eq!(cpu.step(0), Ok(()));
    assert_eq!(cpu.step(0), Ok(()));
    assert_eq!(cpu.program_counter(), 0x208);
    assert_eq!(cpu.stack_depth(), 2);
    assert_eq!(cpu.step(0), Ok(()));
    assert_eq!(cpu.program_counter(), 0x206);
    assert_eq!(cpu.step(0), Ok(()));
    assert_eq!(cpu.program_counter(), 0x202);
    assert_eq!(cpu.stack_depth(), 0);
}

#[test]
fn call_on_a_full_stack_is_a_fault() {
    let mut cpu = loaded(&[0x22, 0x00]);
    for depth in 0..256 {
        assert_eq!(cpu.stack_depth(), depth);
        assert_eq!(cpu.step(0), Ok(()));
    }
    assert_eq!(cpu.stack_depth(), 256);
    assert_eq!(cpu.step(0), Err(Fault::StackOverflow));
    assert_eq!(cpu.stack_depth(), 256);
    assert_eq!(cpu.program_counter(), 512);
}

#[test]
fn self_jump_halts_and_stops_stepping() {
    let mut cpu = loaded(&[0x12, 0x00]);
    assert_eq!(cpu.step(0), Ok(()));
    assert!(cpu.should_halt());
    assert_eq!(cpu.program_counter(), 512);
    assert_eq!(cpu.step(0), Ok(()));
    assert!(cpu.should_halt());
    assert_eq!(cpu.program_counter(), 512);
}

#[test]
fn halted_machine_ignores_steps() {
    let mut cpu = loaded(&[0x12, 0x00]);
    assert_eq!(cpu.step(0), Ok(()));
    assert_eq!(cpu.load_program_into_memory(&[0x60, 0x07]), Ok(()));
    assert_eq!(cpu.step(0), Ok(()));
    assert_eq!(cpu.v_registers()[0], 0);
    assert_eq!(cpu.program_counter(), 512);
}

#[test]
fn jump_elsewhere_does_not_halt() {
    let mut cpu = loaded(&[0x12, 0x04, 0x00, 0x00, 0x12, 0x04]);
    assert_eq!(cpu.step(0), Ok(()));
    assert!(!cpu.should_halt());
    assert_eq!(cpu.program_counter(), 0x204);
    assert_eq!(cpu.step(0), Ok(()));
    assert!(cpu.should_halt());
    assert_eq!(cpu.program_counter(), 0x204);
}

#[test]
fn self_jump_at_the_last_instruction_halts() {
    let mut program = vec![0u8; 3584];
    program[3582] = 0x1F;
    program[3583] = 0xFE;
    let mut cpu = loaded(&program);
    assert_eq!(cpu.set_program_counter(4094), Ok(()));
    assert_eq!(cpu.step(0), Ok(()));
    assert!(cpu.should_halt());
    assert_eq!(cpu.program_counter(), 4094);
}

#[test]
fn pipeline_from_load_to_draw() {
    let mut cpu = loaded(&[0xA2, 0x02, 0x60, 0x0A, 0xD0, 0x01]);
    assert_eq!(cpu.step(0), Ok(()));
    assert_eq!(cpu.index_register(), 0x202);
    assert_eq!(cpu.step(0), Ok(()));
    assert_eq!(cpu.v_registers()[0], 0x0A);
    assert_eq!(cpu.memory()[0x202], 0x60);
    assert_eq!(cpu.step(0), Ok(()));
    assert_eq!(cpu.program_counter(), 0x206);
    assert_eq!(cpu.v_registers()[0xF], 0);
    for y in 0..32 {
        for x in 0..64 {
            let expected = y == 10 && (x == 11 || x == 12);
            assert_eq!(cpu.pixel(x, y), expected);
            assert_eq!(cpu.pixel_buffer()[y][x], expected);
        }
    }
}

#[test]
fn same_program_gives_the_same_trace() {
    let program = [0x60, 0x0A, 0xC1, 0xFF, 0x80, 0x14, 0xA2, 0x00, 0xD0, 0x15, 0x12, 0x0A];
    let mut first = loaded(&program);
    let mut second = loaded(&program);
    for random in 0..8u8 {
        assert_eq!(first.step(random), second.step(random));
        assert_eq!(first.program_counter(), second.program_counter());
        assert_eq!(first.v_registers(), second.v_registers());
        assert_eq!(first.pixel_buffer(), second.pixel_buffer());
        assert_eq!(first.should_halt(), second.should_halt());
    }
    assert!(first.should_halt());
}
