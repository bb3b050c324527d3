//! Properties of the machine that hold for every state and instruction,
//! stated over the model and proved from it.

use vstd::prelude::*;
use crate::instruction::Instruction;
use crate::state::{address_after, address_before, Fault, MachineState, STACK_LIMIT};

verus! {

/// A well-formed instruction is the decoding of the two bytes of its opcode,
/// so the dispatcher never sees a register index beyond 15.
pub proof fn law_well_formed_instruction_is_decoded(ins: Instruction)
    requires
        ins.wf(),
    ensures
        ins == Instruction::from_bytes((ins.instruction * 16 + ins.x) as u8, ins.nn),
        ins.x < 16 && ins.y < 16,
{
}

/// Loading a program that fits succeeds, puts byte `i` of the program at
/// address `512 + i`, leaves every other byte as it was, and sets the
/// program counter to 512.
pub proof fn law_load_places_program(s: MachineState, program: Seq<u8>)
    requires
        s.wf(),
        program.len() <= 3584,
    ensures
        s.load(program) is Ok,
        s.load(program)->Ok_0.wf(),
        s.load(program)->Ok_0.pc == 512,
        forall|i: int|
            0 <= i < program.len() ==> s.load(program)->Ok_0.memory[512 + i] == program[i],
        forall|a: int|
            0 <= a < 512 || 512 + program.len() <= a < 4096 ==> s.load(program)->Ok_0.memory[a]
                == s.memory[a],
{
}

/// A program that is too large is refused.
pub proof fn law_load_refuses_large_program(s: MachineState, program: Seq<u8>)
    requires
        program.len() > 3584,
    ensures
        s.load(program) == Err::<MachineState, Fault>(Fault::ProgramTooLarge),
{
}

/// A fetch moves the program counter by exactly 2, or, where that would
/// pass the last address, to `(pc + 2) mod 4096`; it changes nothing else.
pub proof fn law_fetch_advances_by_two(s: MachineState)
    requires
        s.wf(),
        s.can_fetch(),
    ensures
        s.after_fetch() == s.with_pc(s.after_fetch().pc),
        s.after_fetch().pc == (s.pc + 2) % 4096,
        s.pc + 2 <= 4095 ==> s.after_fetch().pc == s.pc + 2,
        s.pc + 2 > 4095 ==> s.after_fetch().pc == s.pc + 2 - 4096,
        s.after_fetch().wf(),
{
}

/// Clearing the display (`00E0`) turns every pixel off, whatever was lit,
/// and changes nothing else.
pub proof fn law_clear_display(s: MachineState, ins: Instruction, random: u8)
    requires
        s.wf(),
        ins.wf(),
        ins.instruction == 0x0,
        ins.nn == 0xE0,
    ensures
        s.execute(ins, random) is Ok,
        forall|x: int, y: int|
            0 <= x < 64 && 0 <= y < 32 ==> !s.execute(ins, random)->Ok_0.pixel(x, y),
        s.execute(ins, random)->Ok_0 == (MachineState {
            display: s.execute(ins, random)->Ok_0.display,
            ..s
        }),
{
}

/// A draw sets the flag register to 1 if a set pixel of the sprite falls on
/// a pixel that is lit, and to 0 if none does. Every pixel under a set pixel
/// of the sprite is flipped and every other pixel stays.
pub proof fn law_draw_collision_flag(s: MachineState, ins: Instruction, random: u8)
    requires
        s.wf(),
        ins.wf(),
        ins.instruction == 0xD,
        ins.n == 0 || s.index + ins.n <= 4096,
    ensures
        s.execute(ins, random) is Ok,
        (exists|x: int, y: int|
            0 <= x < 64 && 0 <= y < 32 && s.pixel(x, y) && s.sprite_covers(ins, x, y)) ==> s.execute(
            ins,
            random,
        )->Ok_0.registers[15] == 1,
        !(exists|x: int, y: int|
            0 <= x < 64 && 0 <= y < 32 && s.pixel(x, y) && s.sprite_covers(ins, x, y)) ==> s.execute(
            ins,
            random,
        )->Ok_0.registers[15] == 0,
        forall|x: int, y: int|
            0 <= x < 64 && 0 <= y < 32 ==> s.execute(ins, random)->Ok_0.pixel(x, y) == (s.pixel(
                x,
                y,
            ) != s.sprite_covers(ins, x, y)),
{
}

/// Drawing the same sprite twice in the same place restores the display.
/// The position must not be taken from the flag register, which the first
/// draw overwrites.
pub proof fn law_draw_twice_restores_display(
    s: MachineState,
    ins: Instruction,
    random: u8,
    random_after: u8,
)
    requires
        s.wf(),
        ins.wf(),
        ins.instruction == 0xD,
        ins.x != 15,
        ins.y != 15,
        ins.n == 0 || s.index + ins.n <= 4096,
    ensures
        s.execute(ins, random) is Ok,
        s.execute(ins, random)->Ok_0.execute(ins, random_after) is Ok,
        s.execute(ins, random)->Ok_0.execute(ins, random_after)->Ok_0.display == s.display,
{
    let once = s.execute(ins, random)->Ok_0;
    let twice = once.execute(ins, random_after)->Ok_0;
    assert forall|y: int| 0 <= y < 32 implies #[trigger] twice.display[y] =~= s.display[y] by {
        assert forall|x: int| 0 <= x < 64 implies twice.display[y][x] == s.display[y][x] by {
            assert(once.sprite_covers(ins, x, y) == s.sprite_covers(ins, x, y));
            assert(once.pixel(x, y) == (s.pixel(x, y) != s.sprite_covers(ins, x, y)));
            assert(twice.pixel(x, y) == (once.pixel(x, y) != once.sprite_covers(ins, x, y)));
        }
    }
    assert(twice.display =~= s.display);
}

/// Addition with carry (`8xy4`): the flag register is 1 if and only if the
/// sum of the two registers exceeds 255, and 0 otherwise; register `x`,
/// where it is not the flag register, holds the sum modulo 256.
pub proof fn law_add_with_carry(s: MachineState, ins: Instruction, random: u8)
    requires
        s.wf(),
        ins.wf(),
        ins.instruction == 0x8,
        ins.n == 0x4,
    ensures
        s.execute(ins, random) is Ok,
        s.execute(ins, random)->Ok_0.registers[15] == 1 <==> s.reg(ins.x) + s.reg(ins.y) > 255,
        s.execute(ins, random)->Ok_0.registers[15] == 0 <==> s.reg(ins.x) + s.reg(ins.y) <= 255,
        ins.x != 15 ==> s.execute(ins, random)->Ok_0.reg(ins.x) == (s.reg(ins.x) + s.reg(ins.y))
            % 256,
{
}

/// Subtraction (`8xy5`: x minus y; `8xy7`: y minus x): the flag register is
/// 1 if and only if the minuend is at least the subtrahend, equality
/// included, and 0 if a borrow occurs; register `x`, where it is not the
/// flag register, holds the difference modulo 256.
pub proof fn law_subtract_with_borrow(s: MachineState, ins: Instruction, random: u8)
    requires
        s.wf(),
        ins.wf(),
        ins.instruction == 0x8,
        ins.n == 0x5 || ins.n == 0x7,
    ensures
        s.execute(ins, random) is Ok,
        ({
            let minuend = if ins.n == 0x5 {
                s.reg(ins.x)
            } else {
                s.reg(ins.y)
            };
            let subtrahend = if ins.n == 0x5 {
                s.reg(ins.y)
            } else {
                s.reg(ins.x)
            };
            let next = s.execute(ins, random)->Ok_0;
            &&& next.registers[15] == 1 <==> minuend >= subtrahend
            &&& next.registers[15] == 0 <==> minuend < subtrahend
            &&& ins.x != 15 ==> next.reg(ins.x) == (minuend - subtrahend) % 256
        }),
{
}

/// A call (`2nnn`) followed by a return (`00EE`) brings the machine back to
/// the state after the fetch of the call: the program counter is at the
/// instruction after the call and the stack is as it was. The call needs
/// room on the stack.
pub proof fn law_call_then_return(
    s: MachineState,
    call: Instruction,
    ret: Instruction,
    random: u8,
    random_after: u8,
)
    requires
        s.wf(),
        call.wf(),
        ret.wf(),
        call.instruction == 0x2,
        ret.instruction == 0x0,
        ret.nn == 0xEE,
        s.stack.len() < STACK_LIMIT,
    ensures
        s.execute(call, random) is Ok,
        s.execute(call, random)->Ok_0.pc == call.nnn,
        s.execute(call, random)->Ok_0.execute(ret, random_after) == Ok::<MachineState, Fault>(s),
{
    let called = s.execute(call, random)->Ok_0;
    let returned = called.execute(ret, random_after)->Ok_0;
    assert(returned.stack =~= s.stack);
}

/// The same round trip in whole steps: where the instruction at the program
/// counter is a call and the instruction at its target is a return, two
/// steps leave the program counter at the instruction after the call.
pub proof fn law_call_then_return_steps(s: MachineState, random: u8, random_after: u8)
    requires
        s.wf(),
        !s.halted,
        s.can_fetch(),
        s.fetched_instruction().instruction == 0x2,
        s.fetched_instruction().nnn < 4095,
        s.opcode_at(s.fetched_instruction().nnn as int) == 0x00EE,
        s.stack.len() < STACK_LIMIT,
    ensures
        s.step(random) is Ok,
        s.step(random)->Ok_0.step(random_after) == Ok::<MachineState, Fault>(s.after_fetch()),
        s.step(random)->Ok_0.step(random_after)->Ok_0.pc == address_after(s.pc, 2),
{
    let call = s.fetched_instruction();
    let called = s.step(random)->Ok_0;
    let ret = called.fetched_instruction();
    crate::instruction::lemma_decode_wf(s.memory[s.pc as int], s.memory[s.pc + 1]);
    crate::instruction::lemma_decode_wf(called.memory[called.pc as int], called.memory[called.pc + 1]);
    law_call_then_return(s.after_fetch(), call, ret, random, random_after);
    assert(called.after_fetch().execute(ret, random_after)->Ok_0.stack =~= s.stack);
}

/// A halted machine stays as it is, whatever is in its memory.
pub proof fn law_halted_machine_stays(s: MachineState, random: u8)
    requires
        s.halted,
    ensures
        s.step(random) == Ok::<MachineState, Fault>(s),
{
}

/// Executing a jump to its own address sets the halted flag and leaves the
/// program counter at the jump.
pub proof fn law_self_jump_sets_halted(fetched: MachineState, jump: Instruction, random: u8)
    requires
        fetched.wf(),
        jump.wf(),
        jump.instruction == 0x1,
        jump.nnn == address_before(fetched.pc),
    ensures
        fetched.execute(jump, random) == Ok::<MachineState, Fault>(
            MachineState { pc: jump.nnn, halted: true, ..fetched },
        ),
{
}

/// A step that runs a jump to its own address halts the machine: the halted
/// flag is set, the program counter is still at the jump, and nothing else
/// has changed. By `law_halted_machine_stays` no later step changes anything.
pub proof fn law_self_jump_halts(s: MachineState, random: u8)
    requires
        s.wf(),
        !s.halted,
        s.can_fetch(),
        s.fetched_instruction().instruction == 0x1,
        s.fetched_instruction().nnn == s.pc,
    ensures
        s.step(random) == Ok::<MachineState, Fault>(MachineState { halted: true, ..s }),
{
    let jump = s.fetched_instruction();
    let fetched = s.after_fetch();
    crate::instruction::lemma_decode_wf(s.memory[s.pc as int], s.memory[s.pc + 1]);
    crate::state::lemma_address_round_trip(s.pc);
    law_self_jump_sets_halted(fetched, jump, random);
}

/// The smallest program that halts: loading the two bytes `12 00`, a jump
/// to the program start, and stepping once leaves the machine halted, and a
/// further step changes nothing.
pub proof fn law_loaded_self_jump_halts(s: MachineState, random: u8, random_after: u8)
    requires
        s.wf(),
        !s.halted,
    ensures
        s.load(seq![0x12u8, 0x00u8]) is Ok,
        s.load(seq![0x12u8, 0x00u8])->Ok_0.step(random) is Ok,
        s.load(seq![0x12u8, 0x00u8])->Ok_0.step(random)->Ok_0.halted,
        s.load(seq![0x12u8, 0x00u8])->Ok_0.step(random)->Ok_0.pc == 512,
        s.load(seq![0x12u8, 0x00u8])->Ok_0.step(random)->Ok_0.step(random_after) == s.load(
            seq![0x12u8, 0x00u8],
        )->Ok_0.step(random),
{
    let loaded = s.load(seq![0x12u8, 0x00u8])->Ok_0;
    assert(loaded.memory[512] == 0x12 && loaded.memory[513] == 0x00);
    law_self_jump_halts(loaded, random);
    law_halted_machine_stays(loaded.step(random)->Ok_0, random_after);
}

/// The faults of the dispatcher, each with the instructions and states that
/// give it; every other instruction succeeds.
pub proof fn law_faults_exactly(s: MachineState, ins: Instruction, random: u8)
    requires
        s.wf(),
        ins.wf(),
    ensures
        s.execute(ins, random) == Err::<MachineState, Fault>(Fault::EmptyStack) <==> ins.instruction
            == 0x0 && ins.nn == 0xEE && s.stack.len() == 0,
        s.execute(ins, random) == Err::<MachineState, Fault>(Fault::StackOverflow)
            <==> ins.instruction == 0x2 && s.stack.len() == STACK_LIMIT,
        s.execute(ins, random) == Err::<MachineState, Fault>(Fault::CounterOutOfRange)
            <==> ins.instruction == 0xB && ins.nnn + s.reg(0) > 4095,
        s.execute(ins, random) == Err::<MachineState, Fault>(Fault::MemoryOutOfRange) <==> ({
            ||| ins.instruction == 0xD && ins.n > 0 && s.index + ins.n > 4096
            ||| ins.instruction == 0xF && ins.nn == 0x33 && s.index + 2 > 4095
            ||| ins.instruction == 0xF && (ins.nn == 0x55 || ins.nn == 0x65) && s.index + ins.x
                > 4095
        }),
        s.execute(ins, random) != Err::<MachineState, Fault>(Fault::ProgramTooLarge),
{
}

/// An instruction that the machine does not implement changes nothing.
pub proof fn law_unimplemented_is_no_op(s: MachineState, ins: Instruction, random: u8)
    requires
        ins.wf(),
        !ins.implemented(),
    ensures
        s.execute(ins, random) == Ok::<MachineState, Fault>(s),
{
}

/// Executing an instruction keeps a well-formed state well formed.
pub proof fn law_execute_keeps_well_formed(s: MachineState, ins: Instruction, random: u8)
    requires
        s.wf(),
        ins.wf(),
        s.execute(ins, random) is Ok,
    ensures
        s.execute(ins, random)->Ok_0.wf(),
{
}

/// A step keeps a well-formed state well formed.
pub proof fn law_step_keeps_well_formed(s: MachineState, random: u8)
    requires
        s.wf(),
        s.step(random) is Ok,
    ensures
        s.step(random)->Ok_0.wf(),
{
    if !s.halted {
        crate::instruction::lemma_decode_wf(s.memory[s.pc as int], s.memory[s.pc + 1]);
        law_execute_keeps_well_formed(s.after_fetch(), s.fetched_instruction(), random);
    }
}

} // verus!
