//! The mathematical model of the machine: what a machine state is, and when
//! one is well formed.

use vstd::prelude::*;

verus! {

/// Number of addressable bytes.
pub const MEMORY_SIZE: usize = 4096;

/// Address at which a loaded program starts, and where execution begins.
pub const PROGRAM_START: u16 = 512;

/// Largest program image that fits between `PROGRAM_START` and the end of
/// memory.
pub const PROGRAM_CAPACITY: usize = 3584;

/// Number of general-purpose registers.
pub const REGISTER_COUNT: usize = 16;

/// Index of the register that receives carry, borrow and collision flags.
pub const FLAG_REGISTER: usize = 15;

/// Pixels in one display row.
pub const DISPLAY_WIDTH: usize = 64;

/// Rows of the display.
pub const DISPLAY_HEIGHT: usize = 32;

/// Deepest nesting of subroutine calls that the machine accepts.
pub const STACK_LIMIT: usize = 256;

/// The conditions that stop the machine. None of them changes the state.
#[derive(Debug, Clone, Copy, PartialEq, Eq, Structural)]
pub enum Fault {
    /// The program image does not fit into the program region.
    ProgramTooLarge,
    /// The program counter was to be set beyond the last address.
    CounterOutOfRange,
    /// A return was executed while the call stack was empty.
    EmptyStack,
    /// A call was executed while the call stack was full.
    StackOverflow,
    /// An instruction was to read or write beyond the last address.
    MemoryOutOfRange,
}

/// A machine state as plain mathematical values.
pub struct MachineState {
    /// The 4096 bytes of memory.
    pub memory: Seq<u8>,
    /// The sixteen general-purpose registers.
    pub registers: Seq<u8>,
    /// The index register.
    pub index: u16,
    /// Address of the next instruction to fetch.
    pub pc: u16,
    /// Return addresses, the most recent call last.
    pub stack: Seq<u16>,
    /// The display, as 32 rows of 64 pixels.
    pub display: Seq<Seq<bool>>,
    /// Set once the machine has run into a jump to itself.
    pub halted: bool,
    /// Whether the host steps the machine one instruction at a time.
    pub step_mode: bool,
    /// Set while a key-wait instruction has found no key pressed.
    pub waiting_for_input: bool,
    /// The key that is pressed at the moment, if any.
    pub key: Option<u8>,
}

impl MachineState {
    /// The sizes are those of the machine, the program counter and every
    /// return address lie inside memory, the call stack is within its limit,
    /// and a pressed key is one of the sixteen.
    pub open spec fn wf(self) -> bool {
        &&& self.memory.len() == 4096
        &&& self.registers.len() == 16
        &&& self.display.len() == 32
        &&& forall|row: int| 0 <= row < 32 ==> (#[trigger] self.display[row]).len() == 64
        &&& self.pc < 4096
        &&& self.stack.len() <= STACK_LIMIT
        &&& forall|i: int| 0 <= i < self.stack.len() ==> #[trigger] self.stack[i] < 4096
        &&& (self.key matches Some(k) ==> k < 16)
    }

    /// Register `i`.
    pub open spec fn reg(self, i: u8) -> u8 {
        self.registers[i as int]
    }

    /// Pixel in column `x` of row `y`.
    pub open spec fn pixel(self, x: int, y: int) -> bool {
        self.display[y][x]
    }

    /// A display with every pixel off.
    pub open spec fn blank_display() -> Seq<Seq<bool>> {
        Seq::new(32, |row: int| Seq::new(64, |column: int| false))
    }

    /// The state of a machine that was just created: everything is zero,
    /// empty or off, and the program counter is at the program start.
    pub open spec fn initial() -> MachineState {
        MachineState {
            memory: Seq::new(4096, |i: int| 0u8),
            registers: Seq::new(16, |i: int| 0u8),
            index: 0,
            pc: 512,
            stack: Seq::empty(),
            display: Self::blank_display(),
            halted: false,
            step_mode: false,
            waiting_for_input: false,
            key: None,
        }
    }
}

/// The address `by` bytes after `pc`, wrapping at the end of memory.
pub open spec fn address_after(pc: u16, by: int) -> u16 {
    ((pc + by) % 4096) as u16
}

/// The address of the instruction that was fetched last, given the program
/// counter after the fetch.
pub open spec fn address_before(pc: u16) -> u16 {
    ((pc + 4094) % 4096) as u16
}

/// The address before the address after `pc` is `pc` again.
pub proof fn lemma_address_round_trip(pc: u16)
    requires
        pc < 4096,
    ensures
        address_after(pc, 2) < 4096,
        address_before(address_after(pc, 2)) == pc,
{
}

} // verus!
