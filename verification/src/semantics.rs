//! What each instruction does to a machine state, as spec functions on the
//! model. The executable machine is proved against these.

use vstd::prelude::*;
use crate::instruction::Instruction;
use crate::state::{address_after, address_before, Fault, MachineState, STACK_LIMIT};

verus! {

/// The value a flag takes in the flag register.
pub open spec fn flag(raised: bool) -> u8 {
    if raised {
        1
    } else {
        0
    }
}

/// Whether the pixel in column `column` of a sprite row is set. Column 0 is
/// the leftmost pixel, held in the most significant bit.
pub open spec fn sprite_bit(row: u8, column: u8) -> bool {
    row & (0x80u8 >> column) != 0
}

/// How far `position` lies after `origin` on an axis of `size` positions
/// that wraps around.
pub open spec fn sprite_offset(origin: int, position: int, size: int) -> int {
    (position - origin + size) % size
}

/// Whether a sprite row that starts in column `left` has a set pixel in
/// display column `x`.
pub open spec fn sprite_row_covers(row: u8, left: int, x: int) -> bool {
    let column = sprite_offset(left, x, 64);
    column < 8 && sprite_bit(row, column as u8)
}

impl MachineState {
    /// The state with register `i` set to `value`.
    pub open spec fn with_register(self, i: u8, value: u8) -> MachineState {
        MachineState { registers: self.registers.update(i as int, value), ..self }
    }

    /// The state with register `i` set to `value` and then the flag register
    /// set to the flag: where `i` is the flag register, the flag stays.
    pub open spec fn with_result_and_flag(self, i: u8, value: u8, raised: bool) -> MachineState {
        MachineState {
            registers: self.registers.update(i as int, value).update(15, flag(raised)),
            ..self
        }
    }

    /// The state with the program counter at `target`.
    pub open spec fn with_pc(self, target: u16) -> MachineState {
        MachineState { pc: target, ..self }
    }

    /// The state after a conditional skip: the program counter moves past one
    /// more instruction where `taken` holds.
    pub open spec fn skip_if(self, taken: bool) -> MachineState {
        if taken {
            self.with_pc(address_after(self.pc, 2))
        } else {
            self
        }
    }

    /// Column at which a sprite drawn by `ins` starts.
    pub open spec fn sprite_left(self, ins: Instruction) -> int {
        self.reg(ins.x) as int % 64
    }

    /// Row at which a sprite drawn by `ins` starts.
    pub open spec fn sprite_top(self, ins: Instruction) -> int {
        self.reg(ins.y) as int % 32
    }

    /// Whether the sprite drawn by `ins` has a set pixel at display position
    /// (`x`, `y`). The sprite is 8 pixels wide and `ins.n` rows high, its rows
    /// are the bytes at the index register, and it wraps around both edges.
    pub open spec fn sprite_covers(self, ins: Instruction, x: int, y: int) -> bool {
        let row = sprite_offset(self.sprite_top(ins), y, 32);
        &&& row < ins.n
        &&& sprite_row_covers(self.memory[self.index + row], self.sprite_left(ins), x)
    }

    /// Whether the sprite drawn by `ins` has a set pixel on a pixel that is
    /// already lit.
    pub open spec fn sprite_collides(self, ins: Instruction) -> bool {
        exists|x: int, y: int|
            0 <= x < 64 && 0 <= y < 32 && self.pixel(x, y) && #[trigger] self.sprite_covers(
                ins,
                x,
                y,
            )
    }

    /// The display after the sprite of `ins` was XORed onto it.
    pub open spec fn display_after_draw(self, ins: Instruction) -> Seq<Seq<bool>> {
        Seq::new(
            32,
            |y: int| Seq::new(64, |x: int| self.pixel(x, y) != self.sprite_covers(ins, x, y)),
        )
    }

    /// Family 0: clear the display (`00E0`) or return from a subroutine
    /// (`00EE`); anything else does nothing.
    pub open spec fn execute_system(self, ins: Instruction) -> Result<MachineState, Fault> {
        if ins.y == 0xE && ins.n == 0x0 {
            Ok(MachineState { display: Self::blank_display(), ..self })
        } else if ins.y == 0xE && ins.n == 0xE {
            if self.stack.len() == 0 {
                Err(Fault::EmptyStack)
            } else {
                Ok(MachineState { pc: self.stack.last(), stack: self.stack.drop_last(), ..self })
            }
        } else {
            Ok(self)
        }
    }

    /// Family 1: jump to `nnn`. A jump to the address of the jump itself
    /// halts the machine.
    pub open spec fn execute_jump(self, ins: Instruction) -> MachineState {
        MachineState {
            pc: ins.nnn,
            halted: self.halted || ins.nnn == address_before(self.pc),
            ..self
        }
    }

    /// Family 2: push the program counter and jump to `nnn`.
    pub open spec fn execute_call(self, ins: Instruction) -> Result<MachineState, Fault> {
        if self.stack.len() >= STACK_LIMIT {
            Err(Fault::StackOverflow)
        } else {
            Ok(MachineState { pc: ins.nnn, stack: self.stack.push(self.pc), ..self })
        }
    }

    /// Family 8: register-to-register moves, logic and arithmetic. The flag
    /// register is written after the result.
    pub open spec fn execute_arithmetic(self, ins: Instruction) -> MachineState {
        let a = self.reg(ins.x);
        let b = self.reg(ins.y);
        if ins.n == 0x0 {
            self.with_register(ins.x, b)
        } else if ins.n == 0x1 {
            self.with_register(ins.x, a | b)
        } else if ins.n == 0x2 {
            self.with_register(ins.x, a & b)
        } else if ins.n == 0x3 {
            self.with_register(ins.x, a ^ b)
        } else if ins.n == 0x4 {
            self.with_result_and_flag(ins.x, ((a + b) % 256) as u8, a + b > 255)
        } else if ins.n == 0x5 {
            self.with_result_and_flag(ins.x, ((a - b) % 256) as u8, a >= b)
        } else if ins.n == 0x6 {
            self.with_result_and_flag(ins.x, b / 2, b % 2 == 1)
        } else if ins.n == 0x7 {
            self.with_result_and_flag(ins.x, ((b - a) % 256) as u8, b >= a)
        } else if ins.n == 0xE {
            self.with_result_and_flag(ins.x, ((b * 2) % 256) as u8, b >= 128)
        } else {
            self
        }
    }

    /// Family B: jump to `nnn` plus register 0.
    pub open spec fn execute_jump_offset(self, ins: Instruction) -> Result<MachineState, Fault> {
        if ins.nnn + self.reg(0) > 4095 {
            Err(Fault::CounterOutOfRange)
        } else {
            Ok(self.with_pc((ins.nnn + self.reg(0)) as u16))
        }
    }

    /// Family D: XOR a sprite of `n` rows onto the display and record in the
    /// flag register whether it hit a lit pixel.
    pub open spec fn execute_draw(self, ins: Instruction) -> Result<MachineState, Fault> {
        if ins.n > 0 && self.index + ins.n > 4096 {
            Err(Fault::MemoryOutOfRange)
        } else {
            Ok(
                MachineState {
                    display: self.display_after_draw(ins),
                    registers: self.registers.update(15, flag(self.sprite_collides(ins))),
                    ..self
                },
            )
        }
    }

    /// Family E: skip the next instruction if the key named by register `x`
    /// is pressed (`Ex9E`) or is not pressed (`ExA1`).
    pub open spec fn execute_key_test(self, ins: Instruction) -> MachineState {
        if ins.nn == 0x9E {
            self.skip_if(self.key == Some(self.reg(ins.x)))
        } else if ins.nn == 0xA1 {
            self.skip_if(self.key != Some(self.reg(ins.x)))
        } else {
            self
        }
    }

    /// `Fx0A`: with a key pressed, register `x` receives it; with none, the
    /// machine waits: the program counter goes back to this instruction.
    pub open spec fn execute_key_wait(self, ins: Instruction) -> MachineState {
        match self.key {
            Some(key) => MachineState {
                registers: self.registers.update(ins.x as int, key),
                waiting_for_input: false,
                ..self
            },
            None => MachineState {
                pc: address_before(self.pc),
                waiting_for_input: true,
                ..self
            },
        }
    }

    /// `Fx33`: the hundreds, tens and units of register `x` go to the three
    /// bytes at the index register.
    pub open spec fn execute_decimal(self, ins: Instruction) -> Result<MachineState, Fault> {
        let value = self.reg(ins.x);
        let at = self.index as int;
        if at + 2 > 4095 {
            Err(Fault::MemoryOutOfRange)
        } else {
            Ok(
                MachineState {
                    memory: self.memory.update(at, value / 100).update(
                        at + 1,
                        (value / 10) % 10,
                    ).update(at + 2, value % 10),
                    ..self
                },
            )
        }
    }

    /// `Fx55`: registers 0 to `x` go to memory at the index register.
    pub open spec fn execute_store(self, ins: Instruction) -> Result<MachineState, Fault> {
        let at = self.index as int;
        if at + ins.x > 4095 {
            Err(Fault::MemoryOutOfRange)
        } else {
            Ok(
                MachineState {
                    memory: Seq::new(
                        4096,
                        |a: int|
                            if at <= a <= at + ins.x {
                                self.registers[a - at]
                            } else {
                                self.memory[a]
                            },
                    ),
                    ..self
                },
            )
        }
    }

    /// `Fx65`: registers 0 to `x` are read from memory at the index register.
    pub open spec fn execute_fill(self, ins: Instruction) -> Result<MachineState, Fault> {
        let at = self.index as int;
        if at + ins.x > 4095 {
            Err(Fault::MemoryOutOfRange)
        } else {
            Ok(
                MachineState {
                    registers: Seq::new(
                        16,
                        |r: int|
                            if r <= ins.x {
                                self.memory[at + r]
                            } else {
                                self.registers[r]
                            },
                    ),
                    ..self
                },
            )
        }
    }

    /// Family F: key wait, index arithmetic and block transfers.
    pub open spec fn execute_misc(self, ins: Instruction) -> Result<MachineState, Fault> {
        if ins.nn == 0x0A {
            Ok(self.execute_key_wait(ins))
        } else if ins.nn == 0x1E {
            Ok(MachineState { index: ((self.index + self.reg(ins.x)) % 65536) as u16, ..self })
        } else if ins.nn == 0x33 {
            self.execute_decimal(ins)
        } else if ins.nn == 0x55 {
            self.execute_store(ins)
        } else if ins.nn == 0x65 {
            self.execute_fill(ins)
        } else {
            Ok(self)
        }
    }

    /// The state after `ins` was executed, or the fault that stopped it.
    /// `self` is the state after the fetch: its program counter is already
    /// past `ins`. `random` is the byte that the host drew for this
    /// instruction.
    pub open spec fn execute(self, ins: Instruction, random: u8) -> Result<MachineState, Fault> {
        if ins.instruction == 0x0 {
            self.execute_system(ins)
        } else if ins.instruction == 0x1 {
            Ok(self.execute_jump(ins))
        } else if ins.instruction == 0x2 {
            self.execute_call(ins)
        } else if ins.instruction == 0x3 {
            Ok(self.skip_if(self.reg(ins.x) == ins.nn))
        } else if ins.instruction == 0x4 {
            Ok(self.skip_if(self.reg(ins.x) != ins.nn))
        } else if ins.instruction == 0x5 {
            Ok(self.skip_if(self.reg(ins.x) == self.reg(ins.y)))
        } else if ins.instruction == 0x6 {
            Ok(self.with_register(ins.x, ins.nn))
        } else if ins.instruction == 0x7 {
            Ok(self.with_register(ins.x, ((self.reg(ins.x) + ins.nn) % 256) as u8))
        } else if ins.instruction == 0x8 {
            Ok(self.execute_arithmetic(ins))
        } else if ins.instruction == 0x9 {
            Ok(self.skip_if(self.reg(ins.x) != self.reg(ins.y)))
        } else if ins.instruction == 0xA {
            Ok(MachineState { index: ins.nnn, ..self })
        } else if ins.instruction == 0xB {
            self.execute_jump_offset(ins)
        } else if ins.instruction == 0xC {
            Ok(self.with_register(ins.x, random & ins.nn))
        } else if ins.instruction == 0xD {
            self.execute_draw(ins)
        } else if ins.instruction == 0xE {
            Ok(self.execute_key_test(ins))
        } else if ins.instruction == 0xF {
            self.execute_misc(ins)
        } else {
            Ok(self)
        }
    }

    /// The big-endian pair of the two bytes at `address`.
    pub open spec fn opcode_at(self, address: int) -> int {
        self.memory[address] * 256 + self.memory[address + 1]
    }

    /// Whether an instruction can be fetched: both of its bytes lie inside
    /// memory.
    pub open spec fn can_fetch(self) -> bool {
        self.pc < 4095
    }

    /// The instruction at the program counter.
    pub open spec fn fetched_instruction(self) -> Instruction {
        Instruction::from_bytes(self.memory[self.pc as int], self.memory[self.pc + 1])
    }

    /// The state after a fetch: the program counter has moved past the
    /// instruction, wrapping at the end of memory.
    pub open spec fn after_fetch(self) -> MachineState {
        self.with_pc(address_after(self.pc, 2))
    }

    /// One step: fetch, decode and execute. A halted machine stays as it is.
    pub open spec fn step(self, random: u8) -> Result<MachineState, Fault> {
        if self.halted {
            Ok(self)
        } else if !self.can_fetch() {
            Err(Fault::MemoryOutOfRange)
        } else {
            self.after_fetch().execute(self.fetched_instruction(), random)
        }
    }

    /// The memory after `program` was copied to the program start.
    pub open spec fn memory_with_program(self, program: Seq<u8>) -> Seq<u8> {
        Seq::new(
            4096,
            |a: int|
                if 512 <= a < 512 + program.len() {
                    program[a - 512]
                } else {
                    self.memory[a]
                },
        )
    }

    /// The state after `program` was loaded: the image lies at the program
    /// start and the program counter points at it.
    pub open spec fn load(self, program: Seq<u8>) -> Result<MachineState, Fault> {
        if program.len() > 3584 {
            Err(Fault::ProgramTooLarge)
        } else {
            Ok(MachineState { memory: self.memory_with_program(program), pc: 512, ..self })
        }
    }
}

} // verus!
