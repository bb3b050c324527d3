//! The executable machine: its state, the loader, the fetch step and the
//! dispatcher, each proved against the model.

use vstd::prelude::*;
use crate::instruction::Instruction;
use crate::drawing::{
    lemma_row_start, lemma_row_step, lemma_sprite_done, lemma_sprite_start, lemma_sprite_step,
    row_drawn, row_hit, sprite_drawn, sprite_hit,
};
use crate::state::{address_after, Fault, MachineState, STACK_LIMIT};

verus! {

/// The machine. Its state can be read through the accessors and changes only
/// through the loader, the fetch step and the dispatcher.
pub struct Cpu {
    memory: [u8; 4096],
    v_registers: [u8; 16],
    index_register: u16,
    program_counter: u16,
    stack: Vec<u16>,
    should_halt: bool,
    pixel_buffer: [[bool; 64]; 32],
    step_mode: bool,
    waiting_for_input: bool,
    current_key: Option<u8>,
}

impl View for Cpu {
    type V = MachineState;

    closed spec fn view(&self) -> MachineState {
        MachineState {
            memory: self.memory@,
            registers: self.v_registers@,
            index: self.index_register,
            pc: self.program_counter,
            stack: self.stack@,
            display: Seq::new(32, |row: int| self.pixel_buffer[row]@),
            halted: self.should_halt,
            step_mode: self.step_mode,
            waiting_for_input: self.waiting_for_input,
            key: self.current_key,
        }
    }
}

impl Cpu {
    /// Whether the machine is in a well-formed state. Every machine that this
    /// library hands out is, and every operation keeps it so.
    pub open spec fn wf(&self) -> bool {
        self@.wf()
    }

    /// A machine with everything zeroed and the program counter at the
    /// program start.
    pub fn new() -> (cpu: Cpu)
        ensures
            cpu@ == MachineState::initial(),
            cpu.wf(),
    {
        let cpu = Cpu {
            memory: [0u8; 4096],
            v_registers: [0u8; 16],
            index_register: 0,
            program_counter: 0x200,
            stack: Vec::new(),
            should_halt: false,
            pixel_buffer: [[false; 64]; 32],
            step_mode: false,
            waiting_for_input: false,
            current_key: None,
        };
        assert(cpu@.memory =~= MachineState::initial().memory);
        assert(cpu@.registers =~= MachineState::initial().registers);
        assert(cpu@.stack =~= MachineState::initial().stack);
        assert(cpu@.display =~~= MachineState::initial().display);
        cpu
    }

    /// Copies `program` to the program start and points the program counter
    /// at it. An image that does not fit is refused and nothing changes.
    pub fn load_program_into_memory(&mut self, program: &[u8]) -> (r: Result<(), Fault>)
        requires
            old(self).wf(),
        ensures
            (match old(self)@.load(program@) {
                Ok(next) => r is Ok && final(self)@ == next,
                Err(fault) => r == Err::<(), Fault>(fault) && final(self)@ == old(self)@,
            }),
            final(self).wf(),
    {
        let length = program.len();
        if length > 3584 {
            return Err(Fault::ProgramTooLarge);
        }
        let mut i: usize = 0;
        while i < length
            invariant
                length == program@.len(),
                length <= 3584,
                i <= length,
                self.wf(),
                self@ == (MachineState { memory: self@.memory, ..old(self)@ }),
                forall|a: int|
                    0 <= a < 4096 ==> self@.memory[a] == if 512 <= a < 512 + i {
                        program@[a - 512]
                    } else {
                        old(self)@.memory[a]
                    },
            decreases length - i,
        {
            self.memory[0x200 + i] = program[i];
            i += 1;
        }
        self.program_counter = 0x200;
        assert(self@.memory =~= old(self)@.memory_with_program(program@));
        Ok(())
    }

    /// Reads the instruction at the program counter and moves the program
    /// counter past it.
    pub fn fetch(&mut self) -> (ins: Instruction)
        requires
            old(self).wf(),
            old(self)@.can_fetch(),
        ensures
            ins == old(self)@.fetched_instruction(),
            ins.wf(),
            final(self)@ == old(self)@.after_fetch(),
            final(self).wf(),
    {
        let first = self.memory[self.program_counter as usize];
        let second = self.memory[(self.program_counter + 1) as usize];
        let ins = Instruction::decode(first, second);
        self.increment_program_counter(2);
        ins
    }

    /// Executes one decoded instruction. The machine is in the state after
    /// the fetch: its program counter is already past `instruction`.
    /// `random` is the byte that the host drew for this instruction; only
    /// family C reads it. A fault leaves the machine as it was.
    pub fn decode_and_execute(&mut self, instruction: Instruction, random: u8) -> (r: Result<
        (),
        Fault,
    >)
        requires
            old(self).wf(),
            instruction.wf(),
        ensures
            (match old(self)@.execute(instruction, random) {
                Ok(next) => r is Ok && final(self)@ == next,
                Err(fault) => r == Err::<(), Fault>(fault) && final(self)@ == old(self)@,
            }),
            final(self).wf(),
    {
        let family = instruction.instruction;
        if family == 0x0 {
            self.execute_system(instruction)
        } else if family == 0x1 {
            self.execute_jump(instruction);
            Ok(())
        } else if family == 0x2 {
            self.execute_call(instruction)
        } else if family == 0x3 {
            self.execute_skip_if_equal_byte(instruction);
            Ok(())
        } else if family == 0x4 {
            self.execute_skip_if_unequal_byte(instruction);
            Ok(())
        } else if family == 0x5 {
            self.execute_skip_if_equal(instruction);
            Ok(())
        } else if family == 0x6 {
            self.execute_set(instruction);
            Ok(())
        } else if family == 0x7 {
            self.execute_add(instruction);
            Ok(())
        } else if family == 0x8 {
            self.execute_arithmetic(instruction);
            Ok(())
        } else if family == 0x9 {
            self.execute_skip_if_unequal(instruction);
            Ok(())
        } else if family == 0xA {
            self.execute_index(instruction);
            Ok(())
        } else if family == 0xB {
            self.execute_jump_offset(instruction)
        } else if family == 0xC {
            self.execute_random(instruction, random);
            Ok(())
        } else if family == 0xD {
            self.execute_draw(instruction)
        } else if family == 0xE {
            self.execute_key_test(instruction);
            Ok(())
        } else {
            self.execute_misc(instruction)
        }
    }

    /// One step of the machine: fetch, decode, execute. A halted machine
    /// stays as it is. A fault leaves the machine as it was before the step.
    pub fn step(&mut self, random: u8) -> (r: Result<(), Fault>)
        requires
            old(self).wf(),
        ensures
            (match old(self)@.step(random) {
                Ok(next) => r is Ok && final(self)@ == next,
                Err(fault) => r == Err::<(), Fault>(fault) && final(self)@ == old(self)@,
            }),
            final(self).wf(),
    {
        if self.should_halt {
            return Ok(());
        }
        if self.program_counter > 4094 {
            return Err(Fault::MemoryOutOfRange);
        }
        let address = self.program_counter;
        let instruction = self.fetch();
        let outcome = self.decode_and_execute(instruction, random);
        if outcome.is_err() {
            self.program_counter = address;
        }
        outcome
    }

    /// The opcodes before, at and after the program counter, for a host that
    /// shows them. The machine does not change.
    pub fn fetch_opcodes(&mut self) -> (opcodes: [u16; 3])
        requires
            old(self).wf(),
            2 <= old(self)@.pc <= 4092,
        ensures
            final(self)@ == old(self)@,
            opcodes[0] == old(self)@.opcode_at(old(self)@.pc - 2),
            opcodes[1] == old(self)@.opcode_at(old(self)@.pc as int),
            opcodes[2] == old(self)@.opcode_at(old(self)@.pc + 2),
    {
        let at: usize = self.program_counter as usize;
        let opcode_previous = join_bytes(self.memory[at - 2], self.memory[at - 1]);
        let opcode_current = join_bytes(self.memory[at], self.memory[at + 1]);
        let opcode_next = join_bytes(self.memory[at + 2], self.memory[at + 3]);
        [opcode_previous, opcode_current, opcode_next]
    }

    /// Sets the program counter to `value`, which has to be an address.
    pub fn set_program_counter(&mut self, value: u16) -> (r: Result<(), Fault>)
        requires
            old(self).wf(),
        ensures
            value <= 4095 ==> r is Ok && final(self)@ == old(self)@.with_pc(value),
            value > 4095 ==> r == Err::<(), Fault>(Fault::CounterOutOfRange) && final(self)@ == old(
                self,
            )@,
            final(self).wf(),
    {
        if value > 4095 {
            Err(Fault::CounterOutOfRange)
        } else {
            self.program_counter = value;
            Ok(())
        }
    }

    /// Switches single-stepping on or off.
    pub fn set_step_mode(&mut self, value: bool)
        ensures
            final(self)@ == (MachineState { step_mode: value, ..old(self)@ }),
    {
        self.step_mode = value;
    }

    /// Records which key is pressed at the moment, if any.
    pub(crate) fn set_current_key(&mut self, key: Option<u8>)
        requires
            old(self).wf(),
            key matches Some(k) ==> k < 16,
        ensures
            final(self)@ == (MachineState { key: key, ..old(self)@ }),
            final(self).wf(),
    {
        self.current_key = key;
    }
}

impl Cpu {
    /// The memory.
    pub fn memory(&self) -> (memory: &[u8; 4096])
        ensures
            memory@ == self@.memory,
    {
        &self.memory
    }

    /// The general-purpose registers.
    pub fn v_registers(&self) -> (registers: &[u8; 16])
        ensures
            registers@ == self@.registers,
    {
        &self.v_registers
    }

    /// The index register.
    pub fn index_register(&self) -> (index: u16)
        ensures
            index == self@.index,
    {
        self.index_register
    }

    /// The address of the next instruction.
    pub fn program_counter(&self) -> (pc: u16)
        ensures
            pc == self@.pc,
    {
        self.program_counter
    }

    /// How many calls have not returned yet.
    pub fn stack_depth(&self) -> (depth: usize)
        ensures
            depth == self@.stack.len(),
    {
        self.stack.len()
    }

    /// Whether the machine has halted.
    pub fn should_halt(&self) -> (halted: bool)
        ensures
            halted == self@.halted,
    {
        self.should_halt
    }

    /// Whether the host steps the machine one instruction at a time.
    pub fn step_mode(&self) -> (step_mode: bool)
        ensures
            step_mode == self@.step_mode,
    {
        self.step_mode
    }

    /// Whether a key-wait instruction is waiting for a key.
    pub fn waiting_for_input(&self) -> (waiting: bool)
        ensures
            waiting == self@.waiting_for_input,
    {
        self.waiting_for_input
    }

    /// The key that is pressed at the moment, if any.
    pub fn current_key(&self) -> (key: Option<u8>)
        ensures
            key == self@.key,
    {
        self.current_key
    }

    /// The display, as 32 rows of 64 pixels.
    pub fn pixel_buffer(&self) -> (pixels: &[[bool; 64]; 32])
        ensures
            forall|x: int, y: int|
                0 <= x < 64 && 0 <= y < 32 ==> pixels[y][x] == #[trigger] self@.pixel(x, y),
    {
        &self.pixel_buffer
    }

    /// Whether the pixel in column `x` of row `y` is lit.
    pub fn pixel(&self, x: usize, y: usize) -> (lit: bool)
        requires
            x < 64,
            y < 32,
        ensures
            lit == self@.pixel(x as int, y as int),
    {
        self.pixel_buffer[y][x]
    }
}

impl Cpu {
    /// Moves the program counter forward by `value`, wrapping at the end of
    /// memory.
    fn increment_program_counter(&mut self, value: u16)
        requires
            old(self).wf(),
            value <= 4096,
        ensures
            final(self)@ == old(self)@.with_pc(address_after(old(self)@.pc, value as int)),
            final(self).wf(),
    {
        if self.program_counter + value > 4095 {
            self.program_counter = (self.program_counter + value) - 4096;
        } else {
            self.program_counter += value;
        }
    }

    /// Moves the program counter past one more instruction where `taken`
    /// holds.
    fn skip_if(&mut self, taken: bool)
        requires
            old(self).wf(),
        ensures
            final(self)@ == old(self)@.skip_if(taken),
            final(self).wf(),
    {
        if taken {
            self.increment_program_counter(2);
        }
    }

    /// Writes `value` to register `i`.
    fn set_register(&mut self, i: u8, value: u8)
        requires
            old(self).wf(),
            i < 16,
        ensures
            final(self)@ == old(self)@.with_register(i, value),
            final(self).wf(),
    {
        self.v_registers[i as usize] = value;
        assert(self@.registers =~= old(self)@.registers.update(i as int, value));
    }

    /// Writes `value` to register `i` and then the flag to the flag register.
    fn set_result_and_flag(&mut self, i: u8, value: u8, raised: bool)
        requires
            old(self).wf(),
            i < 16,
        ensures
            final(self)@ == old(self)@.with_result_and_flag(i, value, raised),
            final(self).wf(),
    {
        self.v_registers[i as usize] = value;
        self.v_registers[0xF] = if raised {
            1
        } else {
            0
        };
        assert(self@.registers =~= old(self)@.with_result_and_flag(i, value, raised).registers);
    }

    /// Family 0: clear the display or return from a subroutine.
    fn execute_system(&mut self, ins: Instruction) -> (r: Result<(), Fault>)
        requires
            old(self).wf(),
            ins.wf(),
        ensures
            (match old(self)@.execute_system(ins) {
                Ok(next) => r is Ok && final(self)@ == next,
                Err(fault) => r == Err::<(), Fault>(fault) && final(self)@ == old(self)@,
            }),
            final(self).wf(),
    {
        if ins.y == 0xE && ins.n == 0x0 {
            self.pixel_buffer = [[false; 64]; 32];
            assert(self@.display =~~= MachineState::blank_display());
            Ok(())
        } else if ins.y == 0xE && ins.n == 0xE {
            match self.stack.pop() {
                Some(return_address) => {
                    self.program_counter = return_address;
                    assert(self@.stack =~= old(self)@.stack.drop_last());
                    Ok(())
                },
                None => Err(Fault::EmptyStack),
            }
        } else {
            Ok(())
        }
    }

    /// Family 1: jump, and halt on a jump to itself.
    fn execute_jump(&mut self, ins: Instruction)
        requires
            old(self).wf(),
            ins.wf(),
        ensures
            final(self)@ == old(self)@.execute_jump(ins),
            final(self).wf(),
    {
        let own_address: u16 = if self.program_counter >= 2 {
            self.program_counter - 2
        } else {
            self.program_counter + 4094
        };
        if own_address == ins.nnn {
            self.should_halt = true;
        }
        self.program_counter = ins.nnn;
    }

    /// Family 2: call a subroutine.
    fn execute_call(&mut self, ins: Instruction) -> (r: Result<(), Fault>)
        requires
            old(self).wf(),
            ins.wf(),
        ensures
            (match old(self)@.execute_call(ins) {
                Ok(next) => r is Ok && final(self)@ == next,
                Err(fault) => r == Err::<(), Fault>(fault) && final(self)@ == old(self)@,
            }),
            final(self).wf(),
    {
        if self.stack.len() >= STACK_LIMIT {
            Err(Fault::StackOverflow)
        } else {
            self.stack.push(self.program_counter);
            self.program_counter = ins.nnn;
            Ok(())
        }
    }

    /// Family 3: skip if register `x` equals `nn`.
    fn execute_skip_if_equal_byte(&mut self, ins: Instruction)
        requires
            old(self).wf(),
            ins.wf(),
        ensures
            final(self)@ == old(self)@.skip_if(old(self)@.reg(ins.x) == ins.nn),
            final(self).wf(),
    {
        let taken = self.v_registers[ins.x as usize] == ins.nn;
        self.skip_if(taken);
    }

    /// Family 4: skip if register `x` differs from `nn`.
    fn execute_skip_if_unequal_byte(&mut self, ins: Instruction)
        requires
            old(self).wf(),
            ins.wf(),
        ensures
            final(self)@ == old(self)@.skip_if(old(self)@.reg(ins.x) != ins.nn),
            final(self).wf(),
    {
        let taken = self.v_registers[ins.x as usize] != ins.nn;
        self.skip_if(taken);
    }

    /// Family 5: skip if registers `x` and `y` are equal.
    fn execute_skip_if_equal(&mut self, ins: Instruction)
        requires
            old(self).wf(),
            ins.wf(),
        ensures
            final(self)@ == old(self)@.skip_if(old(self)@.reg(ins.x) == old(self)@.reg(ins.y)),
            final(self).wf(),
    {
        let taken = self.v_registers[ins.x as usize] == self.v_registers[ins.y as usize];
        self.skip_if(taken);
    }

    /// Family 6: set register `x` to `nn`.
    fn execute_set(&mut self, ins: Instruction)
        requires
            old(self).wf(),
            ins.wf(),
        ensures
            final(self)@ == old(self)@.with_register(ins.x, ins.nn),
            final(self).wf(),
    {
        self.set_register(ins.x, ins.nn);
    }

    /// Family 7: add `nn` to register `x`, wrapping, without a flag.
    fn execute_add(&mut self, ins: Instruction)
        requires
            old(self).wf(),
            ins.wf(),
        ensures
            final(self)@ == old(self)@.with_register(
                ins.x,
                ((old(self)@.reg(ins.x) + ins.nn) % 256) as u8,
            ),
            final(self).wf(),
    {
        let sum = self.v_registers[ins.x as usize].wrapping_add(ins.nn);
        self.set_register(ins.x, sum);
    }

    /// Family 8: register-to-register moves, logic and arithmetic.
    fn execute_arithmetic(&mut self, ins: Instruction)
        requires
            old(self).wf(),
            ins.wf(),
        ensures
            final(self)@ == old(self)@.execute_arithmetic(ins),
            final(self).wf(),
    {
        let a = self.v_registers[ins.x as usize];
        let b = self.v_registers[ins.y as usize];
        if ins.n == 0x0 {
            self.set_register(ins.x, b);
        } else if ins.n == 0x1 {
            self.set_register(ins.x, a | b);
        } else if ins.n == 0x2 {
            self.set_register(ins.x, a & b);
        } else if ins.n == 0x3 {
            self.set_register(ins.x, a ^ b);
        } else if ins.n == 0x4 {
            let (sum, carry) = add_with_carry(a, b);
            self.set_result_and_flag(ins.x, sum, carry);
        } else if ins.n == 0x5 {
            let (difference, no_borrow) = subtract_with_borrow(a, b);
            self.set_result_and_flag(ins.x, difference, no_borrow);
        } else if ins.n == 0x6 {
            let (half, shifted_out) = shift_right(b);
            self.set_result_and_flag(ins.x, half, shifted_out);
        } else if ins.n == 0x7 {
            let (difference, no_borrow) = subtract_with_borrow(b, a);
            self.set_result_and_flag(ins.x, difference, no_borrow);
        } else if ins.n == 0xE {
            let (double, shifted_out) = shift_left(b);
            self.set_result_and_flag(ins.x, double, shifted_out);
        }
    }

    /// Family 9: skip if registers `x` and `y` differ.
    fn execute_skip_if_unequal(&mut self, ins: Instruction)
        requires
            old(self).wf(),
            ins.wf(),
        ensures
            final(self)@ == old(self)@.skip_if(old(self)@.reg(ins.x) != old(self)@.reg(ins.y)),
            final(self).wf(),
    {
        let taken = self.v_registers[ins.x as usize] != self.v_registers[ins.y as usize];
        self.skip_if(taken);
    }

    /// Family A: set the index register to `nnn`.
    fn execute_index(&mut self, ins: Instruction)
        requires
            old(self).wf(),
            ins.wf(),
        ensures
            final(self)@ == (MachineState { index: ins.nnn, ..old(self)@ }),
            final(self).wf(),
    {
        self.index_register = ins.nnn;
    }

    /// Family B: jump to `nnn` plus register 0.
    fn execute_jump_offset(&mut self, ins: Instruction) -> (r: Result<(), Fault>)
        requires
            old(self).wf(),
            ins.wf(),
        ensures
            (match old(self)@.execute_jump_offset(ins) {
                Ok(next) => r is Ok && final(self)@ == next,
                Err(fault) => r == Err::<(), Fault>(fault) && final(self)@ == old(self)@,
            }),
            final(self).wf(),
    {
        let offset: u16 = self.v_registers[0x0] as u16;
        self.set_program_counter(ins.nnn + offset)
    }

    /// Family C: set register `x` to the random byte masked by `nn`.
    fn execute_random(&mut self, ins: Instruction, random: u8)
        requires
            old(self).wf(),
            ins.wf(),
        ensures
            final(self)@ == old(self)@.with_register(ins.x, random & ins.nn),
            final(self).wf(),
    {
        self.set_register(ins.x, random & ins.nn);
    }

    /// Family D: draw a sprite and record a collision in the flag register.
    fn execute_draw(&mut self, ins: Instruction) -> (r: Result<(), Fault>)
        requires
            old(self).wf(),
            ins.wf(),
        ensures
            (match old(self)@.execute_draw(ins) {
                Ok(next) => r is Ok && final(self)@ == next,
                Err(fault) => r == Err::<(), Fault>(fault) && final(self)@ == old(self)@,
            }),
            final(self).wf(),
    {
        let rows: usize = ins.n as usize;
        let at: usize = self.index_register as usize;
        if rows > 0 && at + rows > 4096 {
            return Err(Fault::MemoryOutOfRange);
        }
        let left: usize = (self.v_registers[ins.x as usize] % 64) as usize;
        let top: usize = (self.v_registers[ins.y as usize] % 32) as usize;
        let mut collided = false;
        let mut y: usize = top;
        let mut row: usize = 0;
        proof {
            lemma_sprite_start(self@, ins);
        }
        while row < rows
            invariant
                rows == ins.n,
                ins.wf(),
                row <= rows,
                rows > 0 ==> at + rows <= 4096,
                at == old(self)@.index,
                left == old(self)@.sprite_left(ins),
                top == old(self)@.sprite_top(ins),
                y == (top + row) % 32,
                self.wf(),
                old(self).wf(),
                self@ == (MachineState { display: self@.display, ..old(self)@ }),
                sprite_drawn(old(self)@, self@, ins, row as int),
                collided == sprite_hit(old(self)@, ins, row as int),
            decreases rows - row,
        {
            let ghost before = self@;
            let sprite_data: u8 = self.memory[at + row];
            let hit = self.draw_row(sprite_data, left, y);
            if hit {
                collided = true;
            }
            proof {
                lemma_sprite_step(old(self)@, before, self@, ins, row as int);
            }
            y += 1;
            if y > 31 {
                y = 0;
            }
            row += 1;
        }
        proof {
            lemma_sprite_done(old(self)@, self@, ins);
        }
        self.v_registers[0xF] = if collided {
            1
        } else {
            0
        };
        assert(self@.registers =~= old(self)@.execute_draw(ins)->Ok_0.registers);
        Ok(())
    }

    /// XORs one sprite row onto display row `y`, starting in column `left`
    /// and wrapping at the right edge. Returns whether a set pixel of the
    /// sprite fell on a lit pixel.
    fn draw_row(&mut self, sprite_data: u8, left: usize, y: usize) -> (hit: bool)
        requires
            old(self).wf(),
            left < 64,
            y < 32,
        ensures
            final(self).wf(),
            final(self)@ == (MachineState { display: final(self)@.display, ..old(self)@ }),
            row_drawn(old(self)@, final(self)@, sprite_data, left as int, y as int, 8),
            hit == row_hit(old(self)@, sprite_data, left as int, y as int, 8),
    {
        let mut hit = false;
        let mut x: usize = left;
        let mut column: u8 = 0;
        proof {
            lemma_row_start(self@, sprite_data, left as int, y as int);
        }
        while column < 8
            invariant
                column <= 8,
                left < 64,
                y < 32,
                x == (left + column) % 64,
                self.wf(),
                self@ == (MachineState { display: self@.display, ..old(self)@ }),
                row_drawn(old(self)@, self@, sprite_data, left as int, y as int, column as int),
                hit == row_hit(old(self)@, sprite_data, left as int, y as int, column as int),
            decreases 8 - column,
        {
            let ghost before = self@;
            let lit = sprite_data & (0x80u8 >> column) != 0;
            let was_lit = self.pixel_buffer[y][x];
            if lit {
                self.pixel_buffer[y][x] = !was_lit;
            }
            proof {
                lemma_row_step(
                    old(self)@,
                    before,
                    self@,
                    sprite_data,
                    left as int,
                    y as int,
                    column as int,
                );
            }
            if lit && was_lit {
                hit = true;
            }
            x += 1;
            if x > 63 {
                x = 0;
            }
            column += 1;
        }
        hit
    }

    /// Family E: skip on the state of a key.
    fn execute_key_test(&mut self, ins: Instruction)
        requires
            old(self).wf(),
            ins.wf(),
        ensures
            final(self)@ == old(self)@.execute_key_test(ins),
            final(self).wf(),
    {
        let wanted = self.v_registers[ins.x as usize];
        let pressed = match self.current_key {
            Some(key) => key == wanted,
            None => false,
        };
        if ins.nn == 0x9E {
            self.skip_if(pressed);
        } else if ins.nn == 0xA1 {
            self.skip_if(!pressed);
        }
    }

    /// Family F: key wait, index arithmetic and block transfers.
    fn execute_misc(&mut self, ins: Instruction) -> (r: Result<(), Fault>)
        requires
            old(self).wf(),
            ins.wf(),
        ensures
            (match old(self)@.execute_misc(ins) {
                Ok(next) => r is Ok && final(self)@ == next,
                Err(fault) => r == Err::<(), Fault>(fault) && final(self)@ == old(self)@,
            }),
            final(self).wf(),
    {
        if ins.nn == 0x0A {
            self.execute_key_wait(ins);
            Ok(())
        } else if ins.nn == 0x1E {
            self.execute_index_add(ins);
            Ok(())
        } else if ins.nn == 0x33 {
            self.execute_decimal(ins)
        } else if ins.nn == 0x55 {
            self.execute_store(ins)
        } else if ins.nn == 0x65 {
            self.execute_fill(ins)
        } else {
            Ok(())
        }
    }

    /// `Fx0A`: take the pressed key, or wait for one.
    fn execute_key_wait(&mut self, ins: Instruction)
        requires
            old(self).wf(),
            ins.wf(),
        ensures
            final(self)@ == old(self)@.execute_key_wait(ins),
            final(self).wf(),
    {
        match self.current_key {
            Some(key) => {
                self.v_registers[ins.x as usize] = key;
                self.waiting_for_input = false;
                assert(self@.registers =~= old(self)@.registers.update(ins.x as int, key));
            },
            None => {
                self.increment_program_counter(4094);
                self.waiting_for_input = true;
            },
        }
    }

    /// `Fx1E`: add register `x` to the index register.
    fn execute_index_add(&mut self, ins: Instruction)
        requires
            old(self).wf(),
            ins.wf(),
        ensures
            final(self)@ == (MachineState {
                index: ((old(self)@.index + old(self)@.reg(ins.x)) % 65536) as u16,
                ..old(self)@
            }),
            final(self).wf(),
    {
        let amount: u16 = self.v_registers[ins.x as usize] as u16;
        self.index_register = self.index_register.wrapping_add(amount);
    }

    /// `Fx33`: store the decimal digits of register `x`.
    fn execute_decimal(&mut self, ins: Instruction) -> (r: Result<(), Fault>)
        requires
            old(self).wf(),
            ins.wf(),
        ensures
            (match old(self)@.execute_decimal(ins) {
                Ok(next) => r is Ok && final(self)@ == next,
                Err(fault) => r == Err::<(), Fault>(fault) && final(self)@ == old(self)@,
            }),
            final(self).wf(),
    {
        if self.index_register > 4093 {
            return Err(Fault::MemoryOutOfRange);
        }
        let value = self.v_registers[ins.x as usize];
        let at: usize = self.index_register as usize;
        self.memory[at] = value / 100;
        self.memory[at + 1] = (value / 10) % 10;
        self.memory[at + 2] = value % 10;
        assert(self@.memory =~= old(self)@.execute_decimal(ins)->Ok_0.memory);
        Ok(())
    }

    /// `Fx55`: store registers 0 to `x`.
    fn execute_store(&mut self, ins: Instruction) -> (r: Result<(), Fault>)
        requires
            old(self).wf(),
            ins.wf(),
        ensures
            (match old(self)@.execute_store(ins) {
                Ok(next) => r is Ok && final(self)@ == next,
                Err(fault) => r == Err::<(), Fault>(fault) && final(self)@ == old(self)@,
            }),
            final(self).wf(),
    {
        let at: usize = self.index_register as usize;
        let last: usize = ins.x as usize;
        if at + last > 4095 {
            return Err(Fault::MemoryOutOfRange);
        }
        let mut register: usize = 0;
        while register <= last
            invariant
                at == old(self)@.index,
                last == ins.x,
                last < 16,
                at + last <= 4095,
                register <= last + 1,
                self.wf(),
                self@ == (MachineState { memory: self@.memory, ..old(self)@ }),
                forall|a: int|
                    0 <= a < 4096 ==> self@.memory[a] == if at <= a < at + register {
                        old(self)@.registers[a - at]
                    } else {
                        old(self)@.memory[a]
                    },
            decreases last + 1 - register,
        {
            self.memory[at + register] = self.v_registers[register];
            register += 1;
        }
        assert(self@.memory =~= old(self)@.execute_store(ins)->Ok_0.memory);
        Ok(())
    }

    /// `Fx65`: read registers 0 to `x`.
    fn execute_fill(&mut self, ins: Instruction) -> (r: Result<(), Fault>)
        requires
            old(self).wf(),
            ins.wf(),
        ensures
            (match old(self)@.execute_fill(ins) {
                Ok(next) => r is Ok && final(self)@ == next,
                Err(fault) => r == Err::<(), Fault>(fault) && final(self)@ == old(self)@,
            }),
            final(self).wf(),
    {
        let at: usize = self.index_register as usize;
        let last: usize = ins.x as usize;
        if at + last > 4095 {
            return Err(Fault::MemoryOutOfRange);
        }
        let mut register: usize = 0;
        while register <= last
            invariant
                at == old(self)@.index,
                last == ins.x,
                last < 16,
                at + last <= 4095,
                register <= last + 1,
                self.wf(),
                self@ == (MachineState { registers: self@.registers, ..old(self)@ }),
                forall|r: int|
                    0 <= r < 16 ==> self@.registers[r] == if r < register {
                        old(self)@.memory[at + r]
                    } else {
                        old(self)@.registers[r]
                    },
            decreases last + 1 - register,
        {
            self.v_registers[register] = self.memory[at + register];
            register += 1;
        }
        assert(self@.registers =~= old(self)@.execute_fill(ins)->Ok_0.registers);
        Ok(())
    }
}

/// The sum of two bytes modulo 256, and whether it did not fit.
fn add_with_carry(a: u8, b: u8) -> (r: (u8, bool))
    ensures
        r.0 == (a + b) % 256,
        r.1 == (a + b > 255),
{
    (a.wrapping_add(b), a > 255 - b)
}

/// The difference of two bytes modulo 256, and whether nothing was borrowed.
fn subtract_with_borrow(a: u8, b: u8) -> (r: (u8, bool))
    ensures
        r.0 == (a - b) % 256,
        r.1 == (a >= b),
{
    (a.wrapping_sub(b), a >= b)
}

/// A byte shifted right by one, and the bit that left it.
fn shift_right(b: u8) -> (r: (u8, bool))
    ensures
        r.0 == b / 2,
        r.1 == (b % 2 == 1),
{
    assert(b >> 1 == b / 2) by (bit_vector);
    assert((b & 1 != 0) == (b % 2 == 1)) by (bit_vector);
    (b >> 1, b & 1 != 0)
}

/// A byte shifted left by one, and the bit that left it.
fn shift_left(b: u8) -> (r: (u8, bool))
    ensures
        r.0 == (b * 2) % 256,
        r.1 == (b >= 128),
{
    assert(b << 1 == (b * 2) % 256) by (bit_vector);
    assert((b & 0x80 != 0) == (b >= 128)) by (bit_vector);
    (b << 1, b & 0x80 != 0)
}

/// The big-endian pair of two bytes.
fn join_bytes(first: u8, second: u8) -> (wide: u16)
    ensures
        wide == first * 256 + second,
{
    assert((((first as u16) << 8) | (second as u16)) == first * 256 + second) by (bit_vector);
    ((first as u16) << 8) | (second as u16)
}

} // verus!
